//! What a command owes before it may end well.

use crate::commands::brightness::BrightnessStage;
use crate::commands::screen_off::ScreenOffStage;
use crate::commands::screen_on::ScreenOnStage;
use crate::commands::shutdown::ShutdownStage;
use crate::commands::sleep::SleepStage;
use crate::commands::sleep_pre::SleepPreStage;
use crate::commands::startup::StartupStage;
use crate::config::{Config, ScreenRestorePolicy};
use crate::courses::{input_told, marker_seen};
use crate::delay::Delays;
use crate::effects::{ActionView, CurrentInputView, OutcomeView, StartupMode, TvCommand};
use crate::history::{config_stays, is_history, run_after, stepped, valid_after, Step};
use crate::marker::{found_elsewhere, last_tv, put_off};
use crate::run::{Command, CommandStage, PhaseView, RunView};
use crate::talk::{done, nothing_worked, worked, Kind};
use vstd::prelude::*;

verus! {

/// What the user chose when last asked, if anything.
pub open spec fn choice_made(history: Seq<Step>) -> Option<u8>
    decreases history.len(),
{
    if history.len() == 0 {
        None
    } else {
        match (history.last().action, history.last().outcome) {
            (ActionView::PromptBrightness(_), OutcomeView::Choice(choice)) => choice,
            (ActionView::PromptBrightness(_), _) => None,
            _ => choice_made(history.drop_last()),
        }
    }
}

/// Whether a step tried to switch the television off and did not.
pub open spec fn failed_off(step: Step) -> bool {
    &&& step.action matches ActionView::Tv(_, TvCommand::PowerOff)
    &&& step.outcome is TvFailed
}

/// Whether a step had the configured port shown.
pub open spec fn showed_port(config: Config, step: Step) -> bool {
    &&& step.action matches ActionView::Tv(_, TvCommand::SetInput(input))
    &&& input == config.input
    &&& step.outcome is Done
}

/// Whether a stage fits what was done before.
spec fn on_the_way(stage: CommandStage, history: Seq<Step>) -> bool {
    let last = last_tv(history);
    match stage {
        CommandStage::ScreenOff(ScreenOffStage::Input) => last is None,
        CommandStage::ScreenOff(_) => true,
        CommandStage::ScreenOn(ScreenOnStage::Marker) => last is None,
        CommandStage::ScreenOn(_) => true,
        CommandStage::Startup(stage) => {
            &&& nothing_worked(history)
            &&& match stage {
                StartupStage::Marker(_) | StartupStage::NetworkMarker => last is None && done(
                    Kind::Wake,
                    history,
                ) == 0 && done(Kind::SetInput, history) == 0,
                StartupStage::FirstWake => done(Kind::Wake, history) == 0 && done(
                    Kind::SetInput,
                    history,
                ) == 0,
                StartupStage::Attempt(attempt) => done(Kind::Wake, history) == attempt && done(
                    Kind::SetInput,
                    history,
                ) + 1 == attempt,
                StartupStage::Rewake(attempt) => done(Kind::Wake, history) == attempt && done(
                    Kind::SetInput,
                    history,
                ) == attempt,
            }
        },
        CommandStage::SleepPre(SleepPreStage::Marker) => last is None && done(
            Kind::PowerOff,
            history,
        ) == 0 && !input_told(history),
        CommandStage::SleepPre(SleepPreStage::Input { .. }) => done(Kind::PowerOff, history) == 0
            && !input_told(history),
        CommandStage::SleepPre(SleepPreStage::PowerOff) => done(Kind::PowerOff, history) == 0
            && input_told(history),
        CommandStage::SleepPre(SleepPreStage::Fallback { attempt, .. }) => done(
            Kind::PowerOff,
            history,
        ) + 1 == attempt && !input_told(history),
        CommandStage::Sleep(SleepStage::Request) => history.len() == 0,
        CommandStage::Sleep(SleepStage::Input { .. } | SleepStage::Marker) => history.len() > 0
            && done(Kind::PowerOff, history) == 0,
        CommandStage::Sleep(SleepStage::PowerOff { attempt, .. }) => history.len() > 0 && done(
            Kind::PowerOff,
            history,
        ) + 1 == attempt,
        CommandStage::Shutdown(ShutdownStage::Reboot) => history.len() == 0,
        CommandStage::Shutdown(_) => history.len() > 0,
        CommandStage::Brightness(BrightnessStage::Change(value)) => choice_made(history) == Some(
            value,
        ) && done(Kind::SetBrightness, history) == 0,
        CommandStage::Brightness(_) => choice_made(history) is None && done(
            Kind::SetBrightness,
            history,
        ) == 0,
    }
}

/// Whether a command that ended well did what it is for, or had a reason not to.
spec fn at_the_end(command: Command, config: Config, history: Seq<Step>) -> bool {
    match (command, last_tv(history)) {
        (Command::ScreenOff, Some(step)) => put_off(step) || found_elsewhere(config, step)
            || failed_off(step),
        (Command::ScreenOff, None) => false,
        (Command::ScreenOn, Some(step)) => worked(step),
        (Command::ScreenOn, None) => !marker_seen(history) && config.screen_restore_policy
            == ScreenRestorePolicy::MarkerOnly,
        (Command::Startup(_), Some(step)) => {
            &&& done(Kind::Wake, history) >= 1
            &&& showed_port(config, step) || {
                &&& done(Kind::SetInput, history) == 6
                &&& done(Kind::Wake, history) == 7
                &&& nothing_worked(history)
            }
            &&& done(Kind::SetInput, history) >= 1
        },
        (Command::Startup(mode), None) => mode == StartupMode::Wake && !marker_seen(history)
            && config.screen_restore_policy == ScreenRestorePolicy::MarkerOnly,
        (Command::SleepPre, Some(step)) => put_off(step) || found_elsewhere(config, step) || (
        failed_off(step) && done(Kind::PowerOff, history) == if input_told(history) {
            1nat
        } else {
            4
        }),
        (Command::SleepPre, None) => false,
        (Command::Sleep, Some(step)) => put_off(step) || found_elsewhere(config, step) || (
        failed_off(step) && done(Kind::PowerOff, history) == 4),
        (Command::Sleep, None) => history.len() > 0 && history[0].outcome != OutcomeView::Flag(
            true,
        ),
        (Command::Shutdown, Some(step)) => found_elsewhere(config, step) || (
        step.action matches ActionView::Tv(_, TvCommand::PowerOff)),
        (Command::Shutdown, None) => history.len() > 0 && history[0].outcome
            == OutcomeView::Flag(true),
        (Command::Brightness, Some(step)) => match choice_made(history) {
            Some(value) => step == (Step {
                action: ActionView::Tv(config.tv_ip, TvCommand::SetBrightness(value)),
                outcome: OutcomeView::Done,
            }),
            None => done(Kind::SetBrightness, history) == 0,
        },
        (Command::Brightness, None) => choice_made(history) is None,
    }
}

/// Whether what follows from an answer leads on, or ends well with nothing owed.
spec fn plan_owes(
    command: Command,
    stage: CommandStage,
    config: Config,
    delays: Delays,
    history: Seq<Step>,
    outcome: OutcomeView,
) -> bool {
    let (queue, next) = stage.plan(config, delays, outcome);
    let after = history.push(Step { action: stage.request(config), outcome });
    match next {
        Some(next) => on_the_way(next, after),
        None => queue.last() == ActionView::Finish(Ok(())) ==> at_the_end(command, config, after),
    }
}

#[verifier::spinoff_prover]
#[verifier::rlimit(30)]
proof fn lemma_screen_off_owes(
    command: Command,
    stage: ScreenOffStage,
    config: Config,
    delays: Delays,
    history: Seq<Step>,
    outcome: OutcomeView,
)
    requires
        CommandStage::ScreenOff(stage).counted(),
        CommandStage::ScreenOff(stage).is_of(command),
        on_the_way(CommandStage::ScreenOff(stage), history),
        stage.request(config).answered_by(outcome),
    ensures
        plan_owes(command, CommandStage::ScreenOff(stage), config, delays, history, outcome),
{
    let step = Step { action: stage.request(config), outcome };
    assert(history.push(step).drop_last() =~= history);
}

#[verifier::spinoff_prover]
#[verifier::rlimit(30)]
proof fn lemma_screen_on_owes(
    command: Command,
    stage: ScreenOnStage,
    config: Config,
    delays: Delays,
    history: Seq<Step>,
    outcome: OutcomeView,
)
    requires
        CommandStage::ScreenOn(stage).counted(),
        CommandStage::ScreenOn(stage).is_of(command),
        on_the_way(CommandStage::ScreenOn(stage), history),
        stage.request(config).answered_by(outcome),
    ensures
        plan_owes(command, CommandStage::ScreenOn(stage), config, delays, history, outcome),
{
    let step = Step { action: stage.request(config), outcome };
    assert(history.push(step).drop_last() =~= history);
}

#[verifier::spinoff_prover]
#[verifier::rlimit(30)]
proof fn lemma_startup_owes(
    command: Command,
    stage: StartupStage,
    config: Config,
    delays: Delays,
    history: Seq<Step>,
    outcome: OutcomeView,
)
    requires
        CommandStage::Startup(stage).counted(),
        CommandStage::Startup(stage).is_of(command),
        on_the_way(CommandStage::Startup(stage), history),
        stage.request(config).answered_by(outcome),
    ensures
        plan_owes(command, CommandStage::Startup(stage), config, delays, history, outcome),
{
    let step = Step { action: stage.request(config), outcome };
    assert(history.push(step).drop_last() =~= history);
}

#[verifier::spinoff_prover]
#[verifier::rlimit(30)]
proof fn lemma_sleep_pre_owes(
    command: Command,
    stage: SleepPreStage,
    config: Config,
    delays: Delays,
    history: Seq<Step>,
    outcome: OutcomeView,
)
    requires
        CommandStage::SleepPre(stage).counted(),
        CommandStage::SleepPre(stage).is_of(command),
        on_the_way(CommandStage::SleepPre(stage), history),
        stage.request(config).answered_by(outcome),
    ensures
        plan_owes(command, CommandStage::SleepPre(stage), config, delays, history, outcome),
{
    let step = Step { action: stage.request(config), outcome };
    assert(history.push(step).drop_last() =~= history);
}

#[verifier::spinoff_prover]
#[verifier::rlimit(30)]
proof fn lemma_sleep_owes(
    command: Command,
    stage: SleepStage,
    config: Config,
    delays: Delays,
    history: Seq<Step>,
    outcome: OutcomeView,
)
    requires
        CommandStage::Sleep(stage).counted(),
        CommandStage::Sleep(stage).is_of(command),
        on_the_way(CommandStage::Sleep(stage), history),
        stage.request(config).answered_by(outcome),
    ensures
        plan_owes(command, CommandStage::Sleep(stage), config, delays, history, outcome),
{
    let step = Step { action: stage.request(config), outcome };
    assert(history.push(step).drop_last() =~= history);
}

#[verifier::spinoff_prover]
#[verifier::rlimit(30)]
proof fn lemma_shutdown_owes(
    command: Command,
    stage: ShutdownStage,
    config: Config,
    delays: Delays,
    history: Seq<Step>,
    outcome: OutcomeView,
)
    requires
        CommandStage::Shutdown(stage).counted(),
        CommandStage::Shutdown(stage).is_of(command),
        on_the_way(CommandStage::Shutdown(stage), history),
        stage.request(config).answered_by(outcome),
    ensures
        plan_owes(command, CommandStage::Shutdown(stage), config, delays, history, outcome),
{
    let step = Step { action: stage.request(config), outcome };
    assert(history.push(step).drop_last() =~= history);
}

#[verifier::spinoff_prover]
#[verifier::rlimit(30)]
proof fn lemma_brightness_owes(
    command: Command,
    stage: BrightnessStage,
    config: Config,
    delays: Delays,
    history: Seq<Step>,
    outcome: OutcomeView,
)
    requires
        CommandStage::Brightness(stage).counted(),
        CommandStage::Brightness(stage).is_of(command),
        on_the_way(CommandStage::Brightness(stage), history),
        stage.request(config).answered_by(outcome),
    ensures
        plan_owes(command, CommandStage::Brightness(stage), config, delays, history, outcome),
{
    let step = Step { action: stage.request(config), outcome };
    assert(history.push(step).drop_last() =~= history);
}

/// Whether a run owes nothing where it is.
spec fn owes(run: RunView, config: Config, history: Seq<Step>) -> bool {
    match run.phase {
        PhaseView::Running { config: known, stage } => {
            &&& known == config
            &&& on_the_way(stage, history)
            &&& history.len() == 0 ==> run.queue.len() == 1
        },
        PhaseView::Finished => run.queue.last() == ActionView::Finish(Ok(())) ==> at_the_end(
            run.command,
            config,
            history,
        ),
        _ => false,
    }
}

#[verifier::spinoff_prover]
#[verifier::rlimit(30)]
proof fn lemma_step_owes(run: RunView, config: Config, history: Seq<Step>, outcome: OutcomeView)
    requires
        run.valid(),
        owes(run, config, history),
        run.pending().answered_by(outcome),
    ensures
        owes(
            stepped(run, outcome),
            config,
            history.push(Step { action: run.pending(), outcome }),
        ),
{
    reveal(stepped);
    let step = Step { action: run.pending(), outcome };
    assert(history.push(step).drop_last() =~= history);
    if run.queue.len() > 1 {
        assert(run.pending().is_effect());
        assert(run.queue.skip(1).last() == run.queue.last());
        assert(history.len() > 0 ==> history.push(step)[0] == history[0]);
    } else if let PhaseView::Running { stage, config: known } = run.phase {
        match stage {
            CommandStage::ScreenOff(inner) => {
                lemma_screen_off_owes(run.command, inner, config, run.delays, history, outcome);
            },
            CommandStage::ScreenOn(inner) => {
                lemma_screen_on_owes(run.command, inner, config, run.delays, history, outcome);
            },
            CommandStage::Startup(inner) => {
                lemma_startup_owes(run.command, inner, config, run.delays, history, outcome);
            },
            CommandStage::SleepPre(inner) => {
                lemma_sleep_pre_owes(run.command, inner, config, run.delays, history, outcome);
            },
            CommandStage::Sleep(inner) => {
                lemma_sleep_owes(run.command, inner, config, run.delays, history, outcome);
            },
            CommandStage::Shutdown(inner) => {
                lemma_shutdown_owes(run.command, inner, config, run.delays, history, outcome);
            },
            CommandStage::Brightness(inner) => {
                lemma_brightness_owes(run.command, inner, config, run.delays, history, outcome);
            },
        }
    }
}

proof fn lemma_owes(command: Command, delays: Delays, config: Config, history: Seq<Step>)
    requires
        is_history(RunView::started(command, delays, config), history),
    ensures
        owes(run_after(RunView::started(command, delays, config), history), config, history),
    decreases history.len(),
{
    let start = RunView::started(command, delays, config);
    if history.len() > 0 {
        let earlier = history.drop_last();
        lemma_owes(command, delays, config, earlier);
        valid_after(start, earlier);
        lemma_step_owes(run_after(start, earlier), config, earlier, history.last().outcome);
        assert(earlier.push(history.last()) =~= history);
    }
}

proof fn lemma_ended_well(command: Command, delays: Delays, config: Config, history: Seq<Step>)
    requires
        is_history(RunView::started(command, delays, config), history),
        run_after(RunView::started(command, delays, config), history).pending()
            == ActionView::Finish(Ok(())),
    ensures
        at_the_end(command, config, history),
{
    let start = RunView::started(command, delays, config);
    lemma_owes(command, delays, config, history);
    config_stays(command, delays, config, history);
    valid_after(start, history);
    if run_after(start, history).queue.len() > 1 {
        assert(run_after(start, history).pending().is_effect());
    }
}

/// A start wakes the television and tries to show the configured port, unless it is a wake
/// that finds no marker under a policy that asks for it. It ends well only when the port is
/// shown, or when it sent seven wake packets and the port was not shown at any of six attempts.
pub proof fn startup_puts_the_television_on(
    mode: StartupMode,
    delays: Delays,
    config: Config,
    history: Seq<Step>,
)
    requires
        is_history(RunView::started(Command::Startup(mode), delays, config), history),
        run_after(RunView::started(Command::Startup(mode), delays, config), history).pending()
            == ActionView::Finish(Ok(())),
        mode != StartupMode::Wake || marker_seen(history) || config.screen_restore_policy
            == ScreenRestorePolicy::Aggressive,
    ensures
        done(Kind::Wake, history) >= 1,
        done(Kind::SetInput, history) >= 1,
        last_tv(history) is Some,
        showed_port(config, last_tv(history)->Some_0) || {
            &&& done(Kind::SetInput, history) == 6
            &&& done(Kind::Wake, history) == 7
            &&& nothing_worked(history)
        },
{
    lemma_ended_well(Command::Startup(mode), delays, config, history);
}

/// A command that is to put the screen off ends well without having told the television to go
/// off only where it found the television on something else, or had been told to stay away: by
/// a reboot, or by the lack of a coming sleep.
pub proof fn screen_is_put_off_unless_elsewhere(
    command: Command,
    delays: Delays,
    config: Config,
    history: Seq<Step>,
)
    requires
        command is ScreenOff || command is SleepPre || command is Sleep || command is Shutdown,
        is_history(RunView::started(command, delays, config), history),
        run_after(RunView::started(command, delays, config), history).pending()
            == ActionView::Finish(Ok(())),
    ensures
        match last_tv(history) {
            Some(step) => {
                ||| put_off(step)
                ||| found_elsewhere(config, step)
                ||| failed_off(step)
            },
            None => (command is Shutdown && history[0].outcome == OutcomeView::Flag(true)) || (
            command is Sleep && history[0].outcome != OutcomeView::Flag(true)),
        },
{
    let start = RunView::started(command, delays, config);
    lemma_ended_well(command, delays, config, history);
    lemma_last_tv_is_answered(start, history);
}

proof fn lemma_last_tv_is_answered(start: RunView, history: Seq<Step>)
    requires
        is_history(start, history),
    ensures
        last_tv(history) matches Some(step) ==> step.action is Tv && step.action.answered_by(
            step.outcome,
        ),
    decreases history.len(),
{
    if history.len() > 0 {
        lemma_last_tv_is_answered(start, history.drop_last());
    }
}

/// A television that says, at whatever attempt, that it shows the configured port is told to
/// go off: the command does not end well before, and tells it nothing else next.
pub proof fn configured_port_is_put_off(
    command: Command,
    delays: Delays,
    config: Config,
    history: Seq<Step>,
)
    requires
        command is ScreenOff || command is SleepPre || command is Sleep || command is Shutdown,
        is_history(RunView::started(command, delays, config), history),
        last_tv(history) is Some,
        last_tv(history)->Some_0.action matches ActionView::Tv(_, TvCommand::QueryInput),
        last_tv(history)->Some_0.outcome == OutcomeView::Input(
            CurrentInputView::Hdmi(config.input),
        ),
    ensures
        ({
            let pending = run_after(RunView::started(command, delays, config), history).pending();
            pending != ActionView::Finish(Ok(())) && (pending matches ActionView::Tv(_, told)
                ==> told is PowerOff || told is BlankScreen)
        }),
{
    let start = RunView::started(command, delays, config);
    let pending = run_after(start, history).pending();
    if pending == ActionView::Finish(Ok(())) {
        lemma_ended_well(command, delays, config, history);
    }
    lemma_next_is_off(command, delays, config, history);
}

/// Whether a stage puts the screen off, or looks for the marker right before.
spec fn goes_off(stage: CommandStage, config: Config) -> bool {
    stage == CommandStage::Sleep(SleepStage::Marker) || match stage.request(config) {
        ActionView::Tv(_, told) => told is PowerOff || told is BlankScreen,
        _ => false,
    }
}

/// Whether a run whose television showed the configured port last heads for putting it off.
spec fn heads_off(run: RunView, config: Config, history: Seq<Step>) -> bool {
    match (run.phase, last_tv(history)) {
        (PhaseView::Running { stage, .. }, Some(step)) => step.outcome == OutcomeView::Input(
            CurrentInputView::Hdmi(config.input),
        ) ==> goes_off(stage, config),
        _ => true,
    }
}

#[verifier::spinoff_prover]
proof fn lemma_screen_off_heads_off(
    stage: ScreenOffStage,
    config: Config,
    delays: Delays,
    outcome: OutcomeView,
)
    requires
        CommandStage::ScreenOff(stage).counted(),
        stage.request(config).answered_by(outcome),
    ensures
        match CommandStage::ScreenOff(stage).plan(config, delays, outcome).1 {
            Some(next) => outcome == OutcomeView::Input(CurrentInputView::Hdmi(config.input)) ==> goes_off(next, config),
            None => true,
        },
{
}

#[verifier::spinoff_prover]
proof fn lemma_sleep_pre_heads_off(
    stage: SleepPreStage,
    config: Config,
    delays: Delays,
    outcome: OutcomeView,
)
    requires
        CommandStage::SleepPre(stage).counted(),
        stage.request(config).answered_by(outcome),
    ensures
        match CommandStage::SleepPre(stage).plan(config, delays, outcome).1 {
            Some(next) => outcome == OutcomeView::Input(CurrentInputView::Hdmi(config.input)) ==> goes_off(next, config),
            None => true,
        },
{
}

#[verifier::spinoff_prover]
proof fn lemma_sleep_heads_off(
    stage: SleepStage,
    config: Config,
    delays: Delays,
    outcome: OutcomeView,
)
    requires
        CommandStage::Sleep(stage).counted(),
        stage.request(config).answered_by(outcome),
    ensures
        match CommandStage::Sleep(stage).plan(config, delays, outcome).1 {
            Some(next) => outcome == OutcomeView::Input(CurrentInputView::Hdmi(config.input)) || stage
                == SleepStage::Marker ==> goes_off(next, config),
            None => true,
        },
{
}

#[verifier::spinoff_prover]
proof fn lemma_shutdown_heads_off(
    stage: ShutdownStage,
    config: Config,
    delays: Delays,
    outcome: OutcomeView,
)
    requires
        CommandStage::Shutdown(stage).counted(),
        stage.request(config).answered_by(outcome),
    ensures
        match CommandStage::Shutdown(stage).plan(config, delays, outcome).1 {
            Some(next) => outcome == OutcomeView::Input(CurrentInputView::Hdmi(config.input)) ==> goes_off(next, config),
            None => true,
        },
{
}

#[verifier::spinoff_prover]
#[verifier::rlimit(30)]
proof fn lemma_step_heads_off(
    run: RunView,
    config: Config,
    history: Seq<Step>,
    outcome: OutcomeView,
)
    requires
        run.valid(),
        run.command is ScreenOff || run.command is SleepPre || run.command is Sleep
            || run.command is Shutdown,
        owes(run, config, history),
        heads_off(run, config, history),
        run.pending().answered_by(outcome),
    ensures
        heads_off(
            stepped(run, outcome),
            config,
            history.push(Step { action: run.pending(), outcome }),
        ),
{
    reveal(stepped);
    let step = Step { action: run.pending(), outcome };
    assert(history.push(step).drop_last() =~= history);
    if run.queue.len() > 1 {
        assert(run.pending().is_effect());
    } else if let PhaseView::Running { stage, .. } = run.phase {
        match stage {
            CommandStage::ScreenOff(inner) => {
                lemma_screen_off_heads_off(inner, config, run.delays, outcome);
            },
            CommandStage::SleepPre(inner) => {
                lemma_sleep_pre_heads_off(inner, config, run.delays, outcome);
            },
            CommandStage::Sleep(inner) => {
                lemma_sleep_heads_off(inner, config, run.delays, outcome);
            },
            CommandStage::Shutdown(inner) => {
                lemma_shutdown_heads_off(inner, config, run.delays, outcome);
            },
            _ => {},
        }
    }
}

proof fn lemma_heads_off(command: Command, delays: Delays, config: Config, history: Seq<Step>)
    requires
        command is ScreenOff || command is SleepPre || command is Sleep || command is Shutdown,
        is_history(RunView::started(command, delays, config), history),
    ensures
        heads_off(run_after(RunView::started(command, delays, config), history), config, history),
    decreases history.len(),
{
    let start = RunView::started(command, delays, config);
    if history.len() > 0 {
        let earlier = history.drop_last();
        lemma_heads_off(command, delays, config, earlier);
        lemma_owes(command, delays, config, earlier);
        valid_after(start, earlier);
        lemma_step_heads_off(run_after(start, earlier), config, earlier, history.last().outcome);
        assert(earlier.push(history.last()) =~= history);
    }
}

proof fn lemma_next_is_off(command: Command, delays: Delays, config: Config, history: Seq<Step>)
    requires
        command is ScreenOff || command is SleepPre || command is Sleep || command is Shutdown,
        is_history(RunView::started(command, delays, config), history),
        last_tv(history) is Some,
        last_tv(history)->Some_0.outcome == OutcomeView::Input(
            CurrentInputView::Hdmi(config.input),
        ),
    ensures
        run_after(RunView::started(command, delays, config), history).pending()
            matches ActionView::Tv(_, told) ==> told is PowerOff || told is BlankScreen,
{
    let start = RunView::started(command, delays, config);
    lemma_heads_off(command, delays, config, history);
    config_stays(command, delays, config, history);
    valid_after(start, history);
    if run_after(start, history).queue.len() > 1 {
        assert(run_after(start, history).pending().is_effect());
    }
}

/// Before a sleep the switch-off is not given up lightly: it fails once where the television
/// said that it shows the configured port to the switch-off right before the sleep, and four
/// times otherwise.
pub proof fn switching_off_for_sleep_is_tried_again(
    command: Command,
    delays: Delays,
    config: Config,
    history: Seq<Step>,
)
    requires
        command is SleepPre || command is Sleep,
        is_history(RunView::started(command, delays, config), history),
        run_after(RunView::started(command, delays, config), history).pending()
            == ActionView::Finish(Ok(())),
        last_tv(history) is Some,
        failed_off(last_tv(history)->Some_0),
    ensures
        done(Kind::PowerOff, history) == if command is SleepPre && input_told(history) {
            1nat
        } else {
            4
        },
{
    lemma_ended_well(command, delays, config, history);
}

/// A restore that has the marker, or a policy that does without, ends well only with the panel
/// on or the configured port shown.
pub proof fn screen_on_puts_the_screen_on(delays: Delays, config: Config, history: Seq<Step>)
    requires
        is_history(RunView::started(Command::ScreenOn, delays, config), history),
        run_after(RunView::started(Command::ScreenOn, delays, config), history).pending()
            == ActionView::Finish(Ok(())),
        marker_seen(history) || config.screen_restore_policy == ScreenRestorePolicy::Aggressive,
    ensures
        last_tv(history) is Some,
        worked(last_tv(history)->Some_0),
{
    lemma_ended_well(Command::ScreenOn, delays, config, history);
}

/// The change of the brightness ends well where the user chose nothing, and then changes
/// nothing, or where the television took what the user chose.
pub proof fn brightness_ends_well_when_set(delays: Delays, config: Config, history: Seq<Step>)
    requires
        is_history(RunView::started(Command::Brightness, delays, config), history),
        run_after(RunView::started(Command::Brightness, delays, config), history).pending()
            == ActionView::Finish(Ok(())),
    ensures
        match choice_made(history) {
            Some(value) => last_tv(history) == Some(
                Step {
                    action: ActionView::Tv(config.tv_ip, TvCommand::SetBrightness(value)),
                    outcome: OutcomeView::Done,
                },
            ),
            None => done(Kind::SetBrightness, history) == 0,
        },
{
    lemma_ended_well(Command::Brightness, delays, config, history);
    lemma_no_talk(history);
}

/// Where the television was told nothing, its brightness was not set.
proof fn lemma_no_talk(history: Seq<Step>)
    ensures
        last_tv(history) is None ==> done(Kind::SetBrightness, history) == 0,
    decreases history.len(),
{
    if history.len() > 0 {
        lemma_no_talk(history.drop_last());
    }
}

} // verus!
