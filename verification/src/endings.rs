//! How a run begins, how it ends, and what failures do to it.

use crate::commands::brightness::BrightnessStage;
use crate::commands::screen_off::ScreenOffStage;
use crate::commands::screen_on::{self, ScreenOnStage};
use crate::commands::shutdown::ShutdownStage;
use crate::commands::sleep::SleepStage;
use crate::commands::sleep_pre::SleepPreStage;
use crate::commands::startup::{self, StartupStage};
use crate::config::{read_config, Config, ConfigErrorView};
use crate::delay::Delays;
use crate::effects::{ActionView, OutcomeView, RunErrorView, StartupMode, StateScope, TvCommand, TvErrorView};
use crate::failure::IoErrorView;
use crate::history::{config_stays, is_history, run_after, stepped, valid_after, Step};
use crate::marker::{is_undisturbed, last_tv, marker_after};
use crate::run::{Command, CommandStage, PhaseView, RunView};
use crate::paths::ConfigPathError;
use vstd::prelude::*;

verus! {

/// A line that cannot be written, or a marker that cannot be changed, ends the run at once,
/// with that failure as its result.
pub proof fn failed_write_ends_the_run(run: RunView, error: IoErrorView)
    requires
        run.valid(),
        run.pending() is Log || run.pending() is MarkerCreate || run.pending() is MarkerClear,
    ensures
        run.pending().answered_by(OutcomeView::IoFailed(error)),
        run.next(OutcomeView::IoFailed(error)).pending() == ActionView::Finish(
            Err(RunErrorView::Io(error)),
        ),
{
    if run.queue.len() == 1 {
        assert(run.queue.last() == run.pending());
    }
}

/// The run goes on as if nothing had happened when the wait for the network, a notice or an
/// error window fails.
pub proof fn other_failed_effects_change_nothing(run: RunView, error: IoErrorView)
    requires
        run.valid(),
        run.pending() is WaitForNetwork || run.pending() is Notify || run.pending() is ShowError
            || run.pending() is Sleep,
    ensures
        !(run.pending() is Sleep) ==> run.pending().answered_by(OutcomeView::IoFailed(error)),
        run.next(OutcomeView::IoFailed(error)) == run.next(OutcomeView::Done),
{
    if run.queue.len() == 1 {
        assert(run.queue.last() == run.pending());
    }
}

/// What is settled is done in turn, whatever comes of it, unless a line or a change of the
/// marker fails.
pub proof fn settled_actions_are_done_in_turn(run: RunView, outcome: OutcomeView)
    requires
        run.valid(),
        run.queue.len() > 1,
        run.pending().answered_by(outcome),
        !(outcome is IoFailed && (run.pending() is Log || run.pending() is MarkerCreate
            || run.pending() is MarkerClear)),
    ensures
        run.next(outcome).queue == run.queue.skip(1),
        run.next(outcome).phase == run.phase,
        run.pending() is MarkerCreate || run.pending() is MarkerClear || run.pending() is Log
            || run.pending() is WaitForNetwork || run.pending() is Sleep
            || run.pending() is ShowError || run.pending() is Notify,
{
    assert(run.pending().is_effect());
}

/// What can come of each action: every answer to what was asked, and every failure that is not
/// ruled out.
pub proof fn actions_have_their_outcomes(action: ActionView, outcome: OutcomeView)
    ensures
        action.answered_by(outcome) <==> match outcome {
            OutcomeView::Environment(_) => action is ReadEnvironment,
            OutcomeView::Text(_) => action is ReadConfig,
            OutcomeView::Refused(_) => action is OpenMarker || action is BuildClient,
            OutcomeView::Flag(_) => action is MarkerExists || action is CheckReboot
                || action is CheckSleepRequest || action is CheckReachable,
            OutcomeView::Choice(_) => action is PromptBrightness,
            OutcomeView::Input(_) => action matches ActionView::Tv(_, TvCommand::QueryInput),
            OutcomeView::Brightness(_) => action matches ActionView::Tv(
                _,
                TvCommand::QueryBrightness,
            ),
            OutcomeView::TvFailed(_) => action is Tv,
            OutcomeView::IoFailed(_) => action is ReadConfig || action is MarkerCreate
                || action is MarkerClear || action is Log || action is WaitForNetwork
                || action is ShowError || action is Notify || action is CheckReboot
                || action is CheckSleepRequest || action is CheckReachable
                || action is PromptBrightness,
            OutcomeView::Done => action is OpenMarker || action is BuildClient
                || action is MarkerCreate || action is MarkerClear || action is Log
                || action is WaitForNetwork || action is ShowError || action is Notify
                || action is Sleep || (action matches ActionView::Tv(_, command) && !(
            command is QueryInput || command is QueryBrightness)),
        },
{
}

/// An effect that need not succeed leads to the same run whatever comes of it.
proof fn lemma_step_ignores_outcome(run: RunView, first: OutcomeView, second: OutcomeView)
    requires
        run.valid(),
        run.pending().is_effect(),
        !run.pending().must_succeed(),
    ensures
        stepped(run, first) == stepped(run, second),
{
    reveal(stepped);
    if run.queue.len() == 1 {
        assert(run.queue.last() == run.pending());
    }
}

/// A run goes the same way to its end whatever comes of an effect that need not succeed: with
/// another outcome in its place, and every other step as it was, the history is one of the same
/// run, and leads to the same actions, the same result and the same marker.
pub proof fn ignored_outcomes_change_nothing(
    start: RunView,
    history: Seq<Step>,
    at: int,
    outcome: OutcomeView,
    before: bool,
)
    requires
        start.valid(),
        is_history(start, history),
        0 <= at < history.len(),
        history[at].action.is_effect(),
        !history[at].action.must_succeed(),
        history[at].action.answered_by(outcome),
    ensures
        ({
            let other = history.update(at, Step { action: history[at].action, outcome });
            &&& is_history(start, other)
            &&& run_after(start, other) == run_after(start, history)
            &&& marker_after(before, other) == marker_after(before, history)
            &&& is_undisturbed(before, other) == is_undisturbed(before, history)
            &&& last_tv(other) == last_tv(history)
        }),
    decreases history.len(),
{
    let step = Step { action: history[at].action, outcome };
    let other = history.update(at, step);
    let earlier = history.drop_last();
    if at == history.len() - 1 {
        assert(other.drop_last() =~= earlier);
        valid_after(start, earlier);
        lemma_step_ignores_outcome(
            run_after(start, earlier),
            history.last().outcome,
            outcome,
        );
    } else {
        assert(earlier[at] == history[at]);
        ignored_outcomes_change_nothing(start, earlier, at, outcome, before);
        assert(other.drop_last() =~= earlier.update(at, step));
        assert(other.last() == history.last());
    }
}

/// How often a history waits for the network.
pub open spec fn network_waits(history: Seq<Step>) -> nat
    decreases history.len(),
{
    if history.len() == 0 {
        0
    } else {
        network_waits(history.drop_last()) + if history.last().action is WaitForNetwork {
            1nat
        } else {
            0
        }
    }
}

/// Whether a start that is to wait for the network does so right after its first step.
spec fn waits_once(run: RunView, history: Seq<Step>) -> bool {
    &&& match run.phase {
        PhaseView::Running { stage, .. } => stage matches CommandStage::Startup(inner)
            && (inner is Marker <==> history.len() == 0),
        PhaseView::Finished => history.len() > 0,
        _ => false,
    }
    &&& run.pending() is WaitForNetwork <==> history.len() == 1
    &&& forall|i: int| 1 <= i < run.queue.len() ==> !((#[trigger] run.queue[i]) is WaitForNetwork)
    &&& history.len() == 0 ==> run.queue.len() == 1
}

/// What a start does after its first step begins with the wait for the network; what it does
/// later does not hold one.
proof fn lemma_startup_waits(
    stage: StartupStage,
    config: Config,
    delays: Delays,
    outcome: OutcomeView,
)
    requires
        stage.request(config).answered_by(outcome),
    ensures
        ({
            let (queue, next) = startup::plan(config, delays, stage, outcome);
            &&& queue.len() > 0
            &&& queue[0] is WaitForNetwork <==> stage is Marker
            &&& forall|i: int| 1 <= i < queue.len() ==> !((#[trigger] queue[i]) is WaitForNetwork)
            &&& next matches Some(inner) ==> !(inner is Marker)
        }),
{
}

proof fn lemma_step_waits_once(run: RunView, history: Seq<Step>, outcome: OutcomeView)
    requires
        run.valid(),
        waits_once(run, history),
        run.pending().answered_by(outcome),
    ensures
        waits_once(stepped(run, outcome), history.push(Step { action: run.pending(), outcome })),
{
    reveal(stepped);
    if run.queue.len() > 1 {
        let rest = run.queue.skip(1);
        assert forall|i: int| 0 <= i < rest.len() implies !((
        #[trigger] rest[i]) is WaitForNetwork) by {
            assert(rest[i] == run.queue[i + 1]);
        }
    } else if let PhaseView::Running { stage, config } = run.phase {
        if let CommandStage::Startup(inner) = stage {
            lemma_startup_waits(inner, config, run.delays, outcome);
        }
    }
}

proof fn lemma_waits_once(mode: StartupMode, delays: Delays, config: Config, history: Seq<Step>)
    requires
        is_history(RunView::started(Command::Startup(mode), delays, config), history),
    ensures
        waits_once(
            run_after(RunView::started(Command::Startup(mode), delays, config), history),
            history,
        ),
        network_waits(history) == (if history.len() > 1 {
            1nat
        } else {
            0
        }),
        forall|i: int|
            0 <= i < history.len() ==> ((#[trigger] history[i]).action is WaitForNetwork <==> i
                == 1),
    decreases history.len(),
{
    let start = RunView::started(Command::Startup(mode), delays, config);
    if history.len() > 0 {
        let earlier = history.drop_last();
        lemma_waits_once(mode, delays, config, earlier);
        valid_after(start, earlier);
        lemma_step_waits_once(run_after(start, earlier), earlier, history.last().outcome);
        assert(earlier.push(history.last()) =~= history);
        assert forall|i: int| 0 <= i < history.len() implies ((
        #[trigger] history[i]).action is WaitForNetwork <==> i == 1) by {
            if i < earlier.len() {
                assert(history[i] == earlier[i]);
            }
        }
    }
}

/// A start waits for the network exactly once, in every mode and also when it skips the
/// restore: the wait is its second step, and a start that is over has taken it.
pub proof fn startup_waits_for_the_network_once(
    mode: StartupMode,
    delays: Delays,
    config: Config,
    history: Seq<Step>,
)
    requires
        is_history(RunView::started(Command::Startup(mode), delays, config), history),
        run_after(RunView::started(Command::Startup(mode), delays, config), history).is_over(),
    ensures
        history.len() > 1,
        network_waits(history) == 1,
        forall|i: int|
            0 <= i < history.len() ==> ((#[trigger] history[i]).action is WaitForNetwork <==> i
                == 1),
{
    let start = RunView::started(Command::Startup(mode), delays, config);
    valid_after(start, history);
    lemma_waits_once(mode, delays, config, history);
}

/// Whether the wait for the network fails or not changes nothing of a start that is over: with
/// the other outcome, and every other step as it was, the history is one of the same start, and
/// ends in the same result with the same marker.
pub proof fn startup_ignores_the_network(
    mode: StartupMode,
    delays: Delays,
    config: Config,
    history: Seq<Step>,
    outcome: OutcomeView,
    before: bool,
)
    requires
        is_history(RunView::started(Command::Startup(mode), delays, config), history),
        run_after(RunView::started(Command::Startup(mode), delays, config), history).is_over(),
        outcome is Done || outcome is IoFailed,
    ensures
        ({
            let start = RunView::started(Command::Startup(mode), delays, config);
            let other = history.update(1, Step { action: ActionView::WaitForNetwork, outcome });
            &&& history[1].action == ActionView::WaitForNetwork
            &&& is_history(start, other)
            &&& run_after(start, other) == run_after(start, history)
            &&& network_waits(other) == 1
            &&& marker_after(before, other) == marker_after(before, history)
            &&& is_undisturbed(before, other) == is_undisturbed(before, history)
            &&& last_tv(other) == last_tv(history)
        }),
{
    let start = RunView::started(Command::Startup(mode), delays, config);
    startup_waits_for_the_network_once(mode, delays, config, history);
    assert(history[1].action is WaitForNetwork);
    ignored_outcomes_change_nothing(start, history, 1, outcome, before);
    let other = history.update(1, Step { action: ActionView::WaitForNetwork, outcome });
    startup_waits_for_the_network_once(mode, delays, config, other);
}

proof fn lemma_starts_agree(
    mode: StartupMode,
    delays: Delays,
    config: Config,
    first: Seq<Step>,
    second: Seq<Step>,
)
    requires
        is_history(RunView::started(Command::Startup(mode), delays, config), first),
        is_history(RunView::started(Command::Startup(mode), delays, config), second),
        first.len() == second.len(),
        forall|i: int|
            0 <= i < first.len() && i != 1 ==> (#[trigger] first[i]).outcome == second[i].outcome,
    ensures
        run_after(RunView::started(Command::Startup(mode), delays, config), first) == run_after(
            RunView::started(Command::Startup(mode), delays, config),
            second,
        ),
        forall|i: int|
            0 <= i < first.len() ==> (#[trigger] first[i]).action == second[i].action,
    decreases first.len(),
{
    let start = RunView::started(Command::Startup(mode), delays, config);
    if first.len() > 0 {
        let (left, right) = (first.drop_last(), second.drop_last());
        assert forall|i: int| 0 <= i < left.len() && i != 1 implies (
        #[trigger] left[i]).outcome == right[i].outcome by {
            assert(left[i] == first[i] && right[i] == second[i]);
        }
        lemma_starts_agree(mode, delays, config, left, right);
        assert forall|i: int| 0 <= i < first.len() implies (#[trigger] first[i]).action
            == second[i].action by {
            if i < left.len() {
                assert(left[i] == first[i] && right[i] == second[i]);
            }
        }
        if first.len() == 2 {
            valid_after(start, left);
            lemma_waits_once(mode, delays, config, left);
            lemma_step_ignores_outcome(
                run_after(start, left),
                first.last().outcome,
                second.last().outcome,
            );
        }
    }
}

/// Two starts that get the same answers, but for what comes of the wait for the network, do
/// the same: the same actions in the same order, and the same result.
pub proof fn starts_agree_but_for_the_network(
    mode: StartupMode,
    delays: Delays,
    config: Config,
    first: Seq<Step>,
    second: Seq<Step>,
)
    requires
        is_history(RunView::started(Command::Startup(mode), delays, config), first),
        is_history(RunView::started(Command::Startup(mode), delays, config), second),
        first.len() == second.len(),
        forall|i: int|
            0 <= i < first.len() && !(first[i].action is WaitForNetwork) ==> (
            #[trigger] first[i]).outcome == second[i].outcome,
    ensures
        run_after(RunView::started(Command::Startup(mode), delays, config), first) == run_after(
            RunView::started(Command::Startup(mode), delays, config),
            second,
        ),
        forall|i: int|
            0 <= i < first.len() ==> (#[trigger] first[i]).action == second[i].action,
{
    lemma_waits_once(mode, delays, config, first);
    lemma_starts_agree(mode, delays, config, first, second);
}

/// Whether an action sends a wake packet.
pub open spec fn asks_wake(action: ActionView) -> bool {
    match action {
        ActionView::Tv(_, TvCommand::Wake(_)) => true,
        _ => false,
    }
}

/// Whether the first plan is the second one with a line before it.
spec fn costs_a_line<S>(
    failed: (Seq<ActionView>, Option<S>),
    sent: (Seq<ActionView>, Option<S>),
) -> bool {
    &&& failed.0.len() > 0
    &&& failed.0[0] is Log
    &&& failed.0.skip(1) == sent.0
    &&& failed.1 == sent.1
}

proof fn lemma_screen_on_after_wake(
    stage: ScreenOnStage,
    config: Config,
    delays: Delays,
    error: TvErrorView,
)
    requires
        stage.counted(),
        asks_wake(stage.request(config)),
    ensures
        costs_a_line(
            screen_on::plan(config, delays, stage, OutcomeView::TvFailed(error)),
            screen_on::plan(config, delays, stage, OutcomeView::Done),
        ),
{
    let failed = screen_on::plan(config, delays, stage, OutcomeView::TvFailed(error));
    let sent = screen_on::plan(config, delays, stage, OutcomeView::Done);
    assert(failed.0.skip(1) =~= sent.0);
}

proof fn lemma_startup_after_wake(
    stage: StartupStage,
    config: Config,
    delays: Delays,
    error: TvErrorView,
)
    requires
        stage.counted(),
        asks_wake(stage.request(config)),
    ensures
        costs_a_line(
            startup::plan(config, delays, stage, OutcomeView::TvFailed(error)),
            startup::plan(config, delays, stage, OutcomeView::Done),
        ),
{
    let failed = startup::plan(config, delays, stage, OutcomeView::TvFailed(error));
    let sent = startup::plan(config, delays, stage, OutcomeView::Done);
    assert(failed.0.skip(1) =~= sent.0);
}

/// A wake packet that could not be sent costs a line and nothing else.
pub proof fn failed_wake_packet_costs_a_line(run: RunView, error: TvErrorView)
    requires
        run.valid(),
        asks_wake(run.pending()),
    ensures
        run.next(OutcomeView::TvFailed(error)).pending() is Log,
        run.next(OutcomeView::TvFailed(error)).queue.skip(1) == run.next(OutcomeView::Done).queue,
        run.next(OutcomeView::TvFailed(error)).phase == run.next(OutcomeView::Done).phase,
{
    if run.queue.len() > 1 {
        assert(run.pending().is_effect());
    }
    if let PhaseView::Running { stage, config } = run.phase {
        match stage {
            CommandStage::ScreenOn(inner) => {
                lemma_screen_on_after_wake(inner, config, run.delays, error);
            },
            CommandStage::Startup(inner) => {
                lemma_startup_after_wake(inner, config, run.delays, error);
            },
            _ => {},
        }
    }
}

/// Whether the end of a run has a reason in what it did.
spec fn end_has_reason(run: RunView, history: Seq<Step>) -> bool {
    match run.queue.last() {
        ActionView::Finish(Err(RunErrorView::Io(error))) => {
            &&& run.queue.len() == 1
            &&& history.len() > 0
            &&& history.last().outcome == OutcomeView::IoFailed(error)
        },
        ActionView::Finish(Err(RunErrorView::Policy(_))) => run.command is ScreenOn
            || run.command is Brightness,
        ActionView::Finish(Err(_)) => false,
        _ => true,
    }
}

/// Whether the end of a plan, if it is one, has a reason in the outcome.
spec fn plan_has_reason(
    command: Command,
    stage: CommandStage,
    config: Config,
    delays: Delays,
    outcome: OutcomeView,
) -> bool {
    let queue = stage.plan(config, delays, outcome).0;
    match queue.last() {
        ActionView::Finish(Err(RunErrorView::Io(error))) => queue.len() == 1 && outcome
            == OutcomeView::IoFailed(error),
        ActionView::Finish(Err(RunErrorView::Policy(_))) => command is ScreenOn
            || command is Brightness,
        ActionView::Finish(Err(_)) => false,
        _ => true,
    }
}

proof fn lemma_screen_off_has_reason(
    command: Command,
    stage: ScreenOffStage,
    config: Config,
    delays: Delays,
    outcome: OutcomeView,
)
    requires
        CommandStage::ScreenOff(stage).is_of(command),
    ensures
        plan_has_reason(command, CommandStage::ScreenOff(stage), config, delays, outcome),
{
}

proof fn lemma_screen_on_has_reason(
    command: Command,
    stage: ScreenOnStage,
    config: Config,
    delays: Delays,
    outcome: OutcomeView,
)
    requires
        CommandStage::ScreenOn(stage).is_of(command),
    ensures
        plan_has_reason(command, CommandStage::ScreenOn(stage), config, delays, outcome),
{
}

proof fn lemma_startup_has_reason(
    command: Command,
    stage: StartupStage,
    config: Config,
    delays: Delays,
    outcome: OutcomeView,
)
    requires
        CommandStage::Startup(stage).is_of(command),
    ensures
        plan_has_reason(command, CommandStage::Startup(stage), config, delays, outcome),
{
}

proof fn lemma_sleep_pre_has_reason(
    command: Command,
    stage: SleepPreStage,
    config: Config,
    delays: Delays,
    outcome: OutcomeView,
)
    requires
        CommandStage::SleepPre(stage).is_of(command),
    ensures
        plan_has_reason(command, CommandStage::SleepPre(stage), config, delays, outcome),
{
}

proof fn lemma_sleep_has_reason(
    command: Command,
    stage: SleepStage,
    config: Config,
    delays: Delays,
    outcome: OutcomeView,
)
    requires
        CommandStage::Sleep(stage).is_of(command),
    ensures
        plan_has_reason(command, CommandStage::Sleep(stage), config, delays, outcome),
{
}

proof fn lemma_shutdown_has_reason(
    command: Command,
    stage: ShutdownStage,
    config: Config,
    delays: Delays,
    outcome: OutcomeView,
)
    requires
        CommandStage::Shutdown(stage).is_of(command),
    ensures
        plan_has_reason(command, CommandStage::Shutdown(stage), config, delays, outcome),
{
}

proof fn lemma_brightness_has_reason(
    command: Command,
    stage: BrightnessStage,
    config: Config,
    delays: Delays,
    outcome: OutcomeView,
)
    requires
        CommandStage::Brightness(stage).is_of(command),
    ensures
        plan_has_reason(command, CommandStage::Brightness(stage), config, delays, outcome),
{
}

proof fn lemma_plan_has_reason(
    command: Command,
    stage: CommandStage,
    config: Config,
    delays: Delays,
    outcome: OutcomeView,
)
    requires
        stage.is_of(command),
    ensures
        plan_has_reason(command, stage, config, delays, outcome),
{
    match stage {
        CommandStage::ScreenOff(inner) => {
            lemma_screen_off_has_reason(command, inner, config, delays, outcome);
        },
        CommandStage::ScreenOn(inner) => {
            lemma_screen_on_has_reason(command, inner, config, delays, outcome);
        },
        CommandStage::Startup(inner) => {
            lemma_startup_has_reason(command, inner, config, delays, outcome);
        },
        CommandStage::SleepPre(inner) => {
            lemma_sleep_pre_has_reason(command, inner, config, delays, outcome);
        },
        CommandStage::Sleep(inner) => {
            lemma_sleep_has_reason(command, inner, config, delays, outcome);
        },
        CommandStage::Shutdown(inner) => {
            lemma_shutdown_has_reason(command, inner, config, delays, outcome);
        },
        CommandStage::Brightness(inner) => {
            lemma_brightness_has_reason(command, inner, config, delays, outcome);
        },
    }
}

proof fn lemma_step_has_reason(run: RunView, history: Seq<Step>, outcome: OutcomeView)
    requires
        run.valid(),
        run.phase is Running || run.phase is Finished,
        end_has_reason(run, history),
        run.pending().answered_by(outcome),
    ensures
        end_has_reason(
            stepped(run, outcome),
            history.push(Step { action: run.pending(), outcome }),
        ),
{
    reveal(stepped);
    if run.queue.len() > 1 {
        assert(run.queue.skip(1).last() == run.queue.last());
    } else if let PhaseView::Running { stage, config } = run.phase {
        lemma_plan_has_reason(run.command, stage, config, run.delays, outcome);
    }
}

proof fn lemma_end_has_reason(command: Command, delays: Delays, config: Config, history: Seq<Step>)
    requires
        is_history(RunView::started(command, delays, config), history),
    ensures
        end_has_reason(run_after(RunView::started(command, delays, config), history), history),
    decreases history.len(),
{
    let start = RunView::started(command, delays, config);
    if history.len() > 0 {
        let earlier = history.drop_last();
        lemma_end_has_reason(command, delays, config, earlier);
        config_stays(command, delays, config, earlier);
        valid_after(start, earlier);
        lemma_step_has_reason(run_after(start, earlier), earlier, history.last().outcome);
        assert(earlier.push(history.last()) =~= history);
    }
}

/// A command fails for one of two reasons only: what it did last failed for want of input or
/// output, or it could not do what it is for, which happens to a restore and to the change of
/// the brightness alone.
pub proof fn commands_fail_for_a_reason(
    command: Command,
    delays: Delays,
    config: Config,
    history: Seq<Step>,
    error: RunErrorView,
)
    requires
        is_history(RunView::started(command, delays, config), history),
        run_after(RunView::started(command, delays, config), history).pending()
            == ActionView::Finish(Err(error)),
    ensures
        match error {
            RunErrorView::Io(error) => history.len() > 0 && history.last().outcome
                == OutcomeView::IoFailed(error),
            RunErrorView::Policy(_) => command is ScreenOn || command is Brightness,
            _ => false,
        },
{
    let start = RunView::started(command, delays, config);
    lemma_end_has_reason(command, delays, config, history);
    valid_after(start, history);
    let run = run_after(start, history);
    if run.queue.len() > 1 {
        assert(run.pending().is_effect());
    }
}

/// Whether a run of `Command::Sleep` is silent, but for the line about a question that could
/// not be answered.
spec fn is_silent(run: RunView, history: Seq<Step>) -> bool {
    forall|i: int|
        0 <= i < run.queue.len() && (#[trigger] run.queue[i]) is Log ==> i == 0 && history.len()
            == 1 && history[0].outcome is IoFailed
}

/// A run of `Command::Sleep` is still silent after one more step.
proof fn lemma_step_is_silent(run: RunView, history: Seq<Step>, outcome: OutcomeView)
    requires
        run.valid(),
        run.command is Sleep,
        history.len() == 0 ==> run.queue.len() == 1,
        match run.phase {
            PhaseView::Running { stage, .. } => stage == CommandStage::Sleep(SleepStage::Request)
                <==> history.len() == 0,
            PhaseView::Finished => true,
            _ => false,
        },
        is_silent(run, history),
        run.pending().answered_by(outcome),
    ensures
        is_silent(stepped(run, outcome), history.push(Step { action: run.pending(), outcome })),
        stepped(run, outcome).phase matches PhaseView::Running { stage, .. } ==> stage
            != CommandStage::Sleep(SleepStage::Request),
{
    reveal(stepped);
    if run.queue.len() > 1 {
        let rest = run.queue.skip(1);
        assert forall|i: int| 0 <= i < rest.len() implies !((#[trigger] rest[i]) is Log) by {
            assert(rest[i] == run.queue[i + 1]);
        }
    }
}

proof fn lemma_is_silent(delays: Delays, config: Config, history: Seq<Step>)
    requires
        is_history(RunView::started(Command::Sleep, delays, config), history),
    ensures
        is_silent(run_after(RunView::started(Command::Sleep, delays, config), history), history),
        match run_after(RunView::started(Command::Sleep, delays, config), history).phase {
            PhaseView::Running { stage, .. } => stage == CommandStage::Sleep(SleepStage::Request)
                <==> history.len() == 0,
            PhaseView::Finished => true,
            _ => false,
        },
    decreases history.len(),
{
    let start = RunView::started(Command::Sleep, delays, config);
    if history.len() > 0 {
        let earlier = history.drop_last();
        lemma_is_silent(delays, config, earlier);
        config_stays(Command::Sleep, delays, config, history);
        valid_after(start, earlier);
        lemma_step_is_silent(run_after(start, earlier), earlier, history.last().outcome);
        assert(earlier.push(history.last()) =~= history);
    }
}

/// The switch-off while the network manager prepares for sleep writes nothing, unless it
/// could not find out whether a sleep is coming.
pub proof fn sleep_is_silent(delays: Delays, config: Config, history: Seq<Step>)
    requires
        is_history(RunView::started(Command::Sleep, delays, config), history),
        run_after(RunView::started(Command::Sleep, delays, config), history).pending() is Log,
    ensures
        history.len() == 1,
        history[0].outcome is IoFailed,
{
    lemma_is_silent(delays, config, history);
    valid_after(RunView::started(Command::Sleep, delays, config), history);
}

/// What a run does after some steps depends on nothing but where these steps led it.
pub proof fn histories_compose(start: RunView, first: Seq<Step>, rest: Seq<Step>)
    ensures
        run_after(start, first + rest) == run_after(run_after(start, first), rest),
        is_history(start, first + rest) <==> is_history(start, first) && is_history(
            run_after(start, first),
            rest,
        ),
    decreases rest.len(),
{
    if rest.len() == 0 {
        assert(first + rest =~= first);
    } else {
        assert((first + rest).drop_last() =~= first + rest.drop_last());
        histories_compose(start, first, rest.drop_last());
    }
}

/// What is looked up before a command starts, where nothing fails.
pub open spec fn setup(command: Command, path: Seq<u8>, text: Seq<char>) -> Seq<Step> {
    seq![
        Step {
            action: ActionView::ReadEnvironment,
            outcome: OutcomeView::Environment(Ok(path)),
        },
        Step { action: ActionView::ReadConfig(path), outcome: OutcomeView::Text(text) },
    ] + (match command.marker_scope() {
        Some(scope) => seq![
            Step { action: ActionView::OpenMarker(scope), outcome: OutcomeView::Done },
        ],
        None => seq![],
    }) + seq![Step { action: ActionView::BuildClient(path), outcome: OutcomeView::Done }]
}

/// One more step of a run.
proof fn lemma_extend(start: RunView, history: Seq<Step>, step: Step)
    requires
        is_history(start, history),
        step.action == run_after(start, history).pending(),
        step.action.answered_by(step.outcome),
    ensures
        is_history(start, history.push(step)),
        run_after(start, history.push(step)) == run_after(start, history).next(step.outcome),
{
    reveal(stepped);
    assert(history.push(step).drop_last() =~= history);
}

/// Where the file names all that is needed and nothing fails, a run starts its command with
/// the configuration of the file.
pub proof fn setup_starts_the_command(
    command: Command,
    delays: Delays,
    path: Seq<u8>,
    text: Seq<char>,
    config: Config,
)
    requires
        read_config(text) == Ok::<Config, ConfigErrorView>(config),
    ensures
        is_history(RunView::initial(command, delays), setup(command, path, text)),
        run_after(RunView::initial(command, delays), setup(command, path, text))
            == RunView::started(command, delays, config),
{
    let start = RunView::initial(command, delays);
    let all = setup(command, path, text);
    let none: Seq<Step> = seq![];
    let one = none.push(all[0]);
    let two = one.push(all[1]);
    assert(run_after(start, none) == start);
    lemma_extend(start, none, all[0]);
    assert(run_after(start, one) == RunView::located(command, delays, Ok(path)));
    lemma_extend(start, one, all[1]);
    assert(run_after(start, two) == RunView::configured(command, delays, path, Ok(config)));
    match command.marker_scope() {
        Some(_) => {
            let three = two.push(all[2]);
            lemma_extend(start, two, all[2]);
            lemma_extend(start, three, all[3]);
            assert(three.push(all[3]) =~= all);
        },
        None => {
            lemma_extend(start, two, all[2]);
            assert(two.push(all[2]) =~= all);
        },
    }
}

/// A lookup that fails ends the run with its own error and what was said about it.
pub proof fn failed_lookup_is_told(
    command: Command,
    delays: Delays,
    path: Seq<u8>,
    config: Config,
    reason: ConfigPathError,
    text: Seq<char>,
    fault: ConfigErrorView,
    error: IoErrorView,
    message: Seq<char>,
)
    ensures
        RunView::initial(command, delays).next(
            OutcomeView::Environment(Err(reason)),
        ).pending() == ActionView::Finish(Err(RunErrorView::ConfigPath(reason))),
        ({
            let reading = RunView::initial(command, delays).next(
                OutcomeView::Environment(Ok(path)),
            );
            &&& reading.pending() == ActionView::ReadConfig(path)
            &&& reading.next(OutcomeView::IoFailed(error)).pending() == ActionView::Finish(
                Err(RunErrorView::Config(ConfigErrorView::Io(error))),
            )
            &&& read_config(text) == Err::<Config, ConfigErrorView>(fault) ==> reading.next(
                OutcomeView::Text(text),
            ).pending() == ActionView::Finish(Err(RunErrorView::Config(fault)))
            &&& read_config(text) == Ok::<Config, ConfigErrorView>(config) ==> {
                let looking = reading.next(OutcomeView::Text(text));
                let connecting = if command is Shutdown || command is Brightness {
                    looking
                } else {
                    looking.next(OutcomeView::Done)
                };
                &&& !(command is Shutdown || command is Brightness) ==> {
                    &&& looking.pending() == ActionView::OpenMarker(
                        if command is ScreenOff || command is ScreenOn {
                            StateScope::Session
                        } else {
                            StateScope::System
                        },
                    )
                    &&& looking.next(OutcomeView::Refused(message)).pending()
                        == ActionView::Finish(Err(RunErrorView::StateDir(message)))
                }
                &&& connecting.pending() == ActionView::BuildClient(path)
                &&& connecting.next(OutcomeView::Refused(message)).pending()
                    == ActionView::Finish(Err(RunErrorView::AuthContext(message)))
                &&& connecting.next(OutcomeView::Done) == RunView::started(command, delays, config)
            }
        }),
{
}

/// Whether an action looks up what a command needs.
pub open spec fn is_lookup(action: ActionView) -> bool {
    action is ReadEnvironment || action is ReadConfig || action is OpenMarker
        || action is BuildClient
}

impl Command {
    /// How many things are looked up before the command starts.
    pub open spec fn lookups(self) -> nat {
        if self.marker_scope() is Some {
            4
        } else {
            3
        }
    }
}

/// Whether a run has looked up as much as its phase says.
spec fn looked_up(run: RunView, count: nat) -> bool {
    match run.phase {
        PhaseView::Environment => count == 0,
        PhaseView::Config { .. } => count == 1,
        PhaseView::Marker { .. } => count == 2,
        PhaseView::Client { .. } => count + 1 == run.command.lookups(),
        PhaseView::Running { .. } => count >= run.command.lookups(),
        PhaseView::Finished => count < run.command.lookups() ==> run.is_over(),
    }
}

proof fn lemma_step_looks_up(run: RunView, count: nat, outcome: OutcomeView)
    requires
        run.valid(),
        looked_up(run, count),
        count < run.command.lookups() ==> run.queue.len() == 1,
        run.pending().answered_by(outcome),
    ensures
        looked_up(stepped(run, outcome), count + 1),
        count + 1 < run.command.lookups() ==> stepped(run, outcome).queue.len() == 1,
        is_lookup(run.pending()) <==> count < run.command.lookups(),
{
    reveal(stepped);
}

proof fn lemma_looks_up(command: Command, delays: Delays, history: Seq<Step>)
    requires
        is_history(RunView::initial(command, delays), history),
    ensures
        looked_up(run_after(RunView::initial(command, delays), history), history.len()),
        history.len() < command.lookups() ==> run_after(
            RunView::initial(command, delays),
            history,
        ).queue.len() == 1,
        forall|i: int|
            0 <= i < history.len() ==> (is_lookup((#[trigger] history[i]).action) <==> i
                < command.lookups()),
    decreases history.len(),
{
    let start = RunView::initial(command, delays);
    if history.len() > 0 {
        let earlier = history.drop_last();
        lemma_looks_up(command, delays, earlier);
        valid_after(start, earlier);
        lemma_step_looks_up(run_after(start, earlier), earlier.len(), history.last().outcome);
        assert forall|i: int| 0 <= i < history.len() implies (is_lookup(
            (#[trigger] history[i]).action,
        ) <==> i < command.lookups()) by {
            if i < earlier.len() {
                assert(history[i] == earlier[i]);
            }
        }
    }
}

/// A run first looks up what its command needs, and nothing of that later.
pub proof fn lookups_come_first(command: Command, delays: Delays, history: Seq<Step>)
    requires
        is_history(RunView::initial(command, delays), history),
    ensures
        forall|i: int|
            0 <= i < history.len() ==> (is_lookup((#[trigger] history[i]).action) <==> i
                < command.lookups()),
{
    lemma_looks_up(command, delays, history);
}

} // verus!
