//! What each command does after each answer, told by what it did and heard before.

use crate::commands::brightness::BrightnessStage;
use crate::commands::screen_off::ScreenOffStage;
use crate::commands::screen_on::ScreenOnStage;
use crate::commands::shutdown::ShutdownStage;
use crate::commands::sleep::SleepStage;
use crate::commands::sleep_pre::SleepPreStage;
use crate::commands::startup::StartupStage;
use crate::config::Config;
use crate::delay::Delays;
use crate::effects::{ActionView, CurrentInputView, OutcomeView, RunErrorView, StartupMode, TvCommand};
use crate::history::{config_stays, is_history, run_after, stepped, valid_after, Step};
use crate::number::decimal;
use crate::run::{Command, CommandStage, PhaseView, RunView};
use crate::talk::{done, Kind};
use vstd::prelude::*;

verus! {

/// Whether the marker was there when it was last asked about.
pub open spec fn marker_seen(history: Seq<Step>) -> bool
    decreases history.len(),
{
    if history.len() == 0 {
        false
    } else if history.last().action is MarkerExists {
        history.last().outcome == OutcomeView::Flag(true)
    } else {
        marker_seen(history.drop_last())
    }
}

/// Whether the television said at some time what it shows.
pub open spec fn input_told(history: Seq<Step>) -> bool
    decreases history.len(),
{
    history.len() > 0 && (history.last().outcome is Input || input_told(history.drop_last()))
}

/// Whether a stage fits what was done and heard before its request.
spec fn stage_fits(command: Command, stage: CommandStage, history: Seq<Step>) -> bool {
    match stage {
        CommandStage::ScreenOff(ScreenOffStage::Fallback { input_known }) => input_known <==> done(
            Kind::Blank,
            history,
        ) > 0,
        CommandStage::ScreenOff(_) => done(Kind::Blank, history) == 0,
        CommandStage::ScreenOn(
            ScreenOnStage::Attempt(attempt) | ScreenOnStage::Rewake(attempt),
        ) => done(Kind::Wake, history) == attempt,
        CommandStage::ScreenOn(_) => done(Kind::Wake, history) == 0,
        CommandStage::Startup(StartupStage::Marker(mode)) => history.len() == 0 && command
            == Command::Startup(mode) && done(Kind::Wake, history) == 0,
        CommandStage::Startup(StartupStage::NetworkMarker) => history.len() > 0 && command
            == Command::Startup(StartupMode::Auto) && done(Kind::Wake, history) == 0,
        CommandStage::Startup(StartupStage::FirstWake) => done(Kind::Wake, history) == 0,
        CommandStage::Startup(
            StartupStage::Attempt(attempt) | StartupStage::Rewake(attempt),
        ) => done(Kind::Wake, history) == attempt,
        CommandStage::SleepPre(SleepPreStage::Marker) => !input_told(history) && done(
            Kind::QueryInput,
            history,
        ) == 0 && done(Kind::PowerOff, history) == 0,
        CommandStage::SleepPre(SleepPreStage::Input { state_was_set, failures }) => {
            &&& done(Kind::QueryInput, history) == failures
            &&& done(Kind::PowerOff, history) == 0
            &&& state_was_set == marker_seen(history)
            &&& !input_told(history)
        },
        CommandStage::SleepPre(SleepPreStage::PowerOff) => input_told(history),
        CommandStage::SleepPre(SleepPreStage::Fallback { state_was_set, attempt }) => {
            &&& done(Kind::PowerOff, history) + 1 == attempt
            &&& state_was_set == marker_seen(history)
            &&& !input_told(history)
        },
        CommandStage::Sleep(SleepStage::Request) => done(Kind::QueryInput, history) == 0 && done(
            Kind::PowerOff,
            history,
        ) == 0,
        CommandStage::Sleep(SleepStage::Input { failures }) => done(Kind::QueryInput, history)
            == failures && done(Kind::PowerOff, history) == 0,
        CommandStage::Sleep(SleepStage::Marker) => done(Kind::PowerOff, history) == 0,
        CommandStage::Sleep(SleepStage::PowerOff { state_was_set, attempt }) => done(
            Kind::PowerOff,
            history,
        ) + 1 == attempt && state_was_set == marker_seen(history),
        _ => true,
    }
}

#[verifier::spinoff_prover]
proof fn lemma_screen_off_stays_fit(
    command: Command,
    stage: ScreenOffStage,
    config: Config,
    delays: Delays,
    history: Seq<Step>,
    outcome: OutcomeView,
)
    requires
        CommandStage::ScreenOff(stage).counted(),
        CommandStage::ScreenOff(stage).is_of(command),
        stage_fits(command, CommandStage::ScreenOff(stage), history),
        stage.request(config).answered_by(outcome),
    ensures
        match CommandStage::ScreenOff(stage).plan(config, delays, outcome).1 {
            Some(next) => stage_fits(
                command,
                next,
                history.push(Step { action: stage.request(config), outcome }),
            ),
            None => true,
        },
{
    let step = Step { action: stage.request(config), outcome };
    assert(history.push(step).drop_last() =~= history);
}

#[verifier::spinoff_prover]
proof fn lemma_screen_on_stays_fit(
    command: Command,
    stage: ScreenOnStage,
    config: Config,
    delays: Delays,
    history: Seq<Step>,
    outcome: OutcomeView,
)
    requires
        CommandStage::ScreenOn(stage).counted(),
        CommandStage::ScreenOn(stage).is_of(command),
        stage_fits(command, CommandStage::ScreenOn(stage), history),
        stage.request(config).answered_by(outcome),
    ensures
        match CommandStage::ScreenOn(stage).plan(config, delays, outcome).1 {
            Some(next) => stage_fits(
                command,
                next,
                history.push(Step { action: stage.request(config), outcome }),
            ),
            None => true,
        },
{
    let step = Step { action: stage.request(config), outcome };
    assert(history.push(step).drop_last() =~= history);
}

#[verifier::spinoff_prover]
proof fn lemma_startup_stays_fit(
    command: Command,
    stage: StartupStage,
    config: Config,
    delays: Delays,
    history: Seq<Step>,
    outcome: OutcomeView,
)
    requires
        CommandStage::Startup(stage).counted(),
        CommandStage::Startup(stage).is_of(command),
        stage_fits(command, CommandStage::Startup(stage), history),
        stage.request(config).answered_by(outcome),
    ensures
        match CommandStage::Startup(stage).plan(config, delays, outcome).1 {
            Some(next) => stage_fits(
                command,
                next,
                history.push(Step { action: stage.request(config), outcome }),
            ),
            None => true,
        },
{
    let step = Step { action: stage.request(config), outcome };
    assert(history.push(step).drop_last() =~= history);
}

#[verifier::spinoff_prover]
proof fn lemma_sleep_pre_stays_fit(
    command: Command,
    stage: SleepPreStage,
    config: Config,
    delays: Delays,
    history: Seq<Step>,
    outcome: OutcomeView,
)
    requires
        CommandStage::SleepPre(stage).counted(),
        CommandStage::SleepPre(stage).is_of(command),
        stage_fits(command, CommandStage::SleepPre(stage), history),
        stage.request(config).answered_by(outcome),
    ensures
        match CommandStage::SleepPre(stage).plan(config, delays, outcome).1 {
            Some(next) => stage_fits(
                command,
                next,
                history.push(Step { action: stage.request(config), outcome }),
            ),
            None => true,
        },
{
    let step = Step { action: stage.request(config), outcome };
    assert(history.push(step).drop_last() =~= history);
}

#[verifier::spinoff_prover]
proof fn lemma_sleep_stays_fit(
    command: Command,
    stage: SleepStage,
    config: Config,
    delays: Delays,
    history: Seq<Step>,
    outcome: OutcomeView,
)
    requires
        CommandStage::Sleep(stage).counted(),
        CommandStage::Sleep(stage).is_of(command),
        stage_fits(command, CommandStage::Sleep(stage), history),
        stage.request(config).answered_by(outcome),
    ensures
        match CommandStage::Sleep(stage).plan(config, delays, outcome).1 {
            Some(next) => stage_fits(
                command,
                next,
                history.push(Step { action: stage.request(config), outcome }),
            ),
            None => true,
        },
{
    let step = Step { action: stage.request(config), outcome };
    assert(history.push(step).drop_last() =~= history);
}

#[verifier::spinoff_prover]
proof fn lemma_shutdown_stays_fit(
    command: Command,
    stage: ShutdownStage,
    config: Config,
    delays: Delays,
    history: Seq<Step>,
    outcome: OutcomeView,
)
    requires
        CommandStage::Shutdown(stage).counted(),
        CommandStage::Shutdown(stage).is_of(command),
        stage_fits(command, CommandStage::Shutdown(stage), history),
        stage.request(config).answered_by(outcome),
    ensures
        match CommandStage::Shutdown(stage).plan(config, delays, outcome).1 {
            Some(next) => stage_fits(
                command,
                next,
                history.push(Step { action: stage.request(config), outcome }),
            ),
            None => true,
        },
{
    let step = Step { action: stage.request(config), outcome };
    assert(history.push(step).drop_last() =~= history);
}

#[verifier::spinoff_prover]
proof fn lemma_brightness_stays_fit(
    command: Command,
    stage: BrightnessStage,
    config: Config,
    delays: Delays,
    history: Seq<Step>,
    outcome: OutcomeView,
)
    requires
        CommandStage::Brightness(stage).counted(),
        CommandStage::Brightness(stage).is_of(command),
        stage_fits(command, CommandStage::Brightness(stage), history),
        stage.request(config).answered_by(outcome),
    ensures
        match CommandStage::Brightness(stage).plan(config, delays, outcome).1 {
            Some(next) => stage_fits(
                command,
                next,
                history.push(Step { action: stage.request(config), outcome }),
            ),
            None => true,
        },
{
    let step = Step { action: stage.request(config), outcome };
    assert(history.push(step).drop_last() =~= history);
}

/// Whether the stage of a run, if it waits at one, fits what was done and heard before.
spec fn run_fits_history(run: RunView, history: Seq<Step>) -> bool {
    match run.phase {
        PhaseView::Running { stage, .. } => {
            &&& stage_fits(run.command, stage, history)
            &&& history.len() == 0 ==> run.queue.len() == 1
        },
        PhaseView::Finished => true,
        _ => false,
    }
}

#[verifier::spinoff_prover]
proof fn lemma_step_fits_history(run: RunView, history: Seq<Step>, outcome: OutcomeView)
    requires
        run.valid(),
        run_fits_history(run, history),
        run.pending().answered_by(outcome),
    ensures
        run_fits_history(
            stepped(run, outcome),
            history.push(Step { action: run.pending(), outcome }),
        ),
{
    reveal(stepped);
    let step = Step { action: run.pending(), outcome };
    assert(history.push(step).drop_last() =~= history);
    if run.queue.len() > 1 {
        assert(run.pending().is_effect());
    } else if let PhaseView::Running { stage, config } = run.phase {
        match stage {
            CommandStage::ScreenOff(inner) => {
                lemma_screen_off_stays_fit(run.command, inner, config, run.delays, history, outcome);
            },
            CommandStage::ScreenOn(inner) => {
                lemma_screen_on_stays_fit(run.command, inner, config, run.delays, history, outcome);
            },
            CommandStage::Startup(inner) => {
                lemma_startup_stays_fit(run.command, inner, config, run.delays, history, outcome);
            },
            CommandStage::SleepPre(inner) => {
                lemma_sleep_pre_stays_fit(run.command, inner, config, run.delays, history, outcome);
            },
            CommandStage::Sleep(inner) => {
                lemma_sleep_stays_fit(run.command, inner, config, run.delays, history, outcome);
            },
            CommandStage::Shutdown(inner) => {
                lemma_shutdown_stays_fit(run.command, inner, config, run.delays, history, outcome);
            },
            CommandStage::Brightness(inner) => {
                lemma_brightness_stays_fit(run.command, inner, config, run.delays, history, outcome);
            },
        }
    }
}

proof fn lemma_fits_history(command: Command, delays: Delays, config: Config, history: Seq<Step>)
    requires
        is_history(RunView::started(command, delays, config), history),
    ensures
        run_fits_history(
            run_after(RunView::started(command, delays, config), history),
            history,
        ),
    decreases history.len(),
{
    let start = RunView::started(command, delays, config);
    if history.len() > 0 {
        let earlier = history.drop_last();
        lemma_fits_history(command, delays, config, earlier);
        valid_after(start, earlier);
        lemma_step_fits_history(run_after(start, earlier), earlier, history.last().outcome);
        assert(earlier.push(history.last()) =~= history);
    }
}

/// Whether the last step answered a request: it was no mere effect.
pub open spec fn has_answer(history: Seq<Step>) -> bool {
    history.len() > 0 && !history.last().action.is_effect()
}

/// What is settled after an answer is the plan of the stage that asked for it.
proof fn lemma_answer(command: Command, delays: Delays, config: Config, history: Seq<Step>) -> (stage:
    CommandStage)
    requires
        is_history(RunView::started(command, delays, config), history),
        has_answer(history),
    ensures
        stage.counted(),
        stage.is_of(command),
        stage_fits(command, stage, history.drop_last()),
        stage.request(config) == history.last().action,
        history.last().action.answered_by(history.last().outcome),
        run_after(RunView::started(command, delays, config), history).queue == stage.plan(
            config,
            delays,
            history.last().outcome,
        ).0,
{
    let start = RunView::started(command, delays, config);
    let earlier = history.drop_last();
    let run = run_after(start, earlier);
    lemma_fits_history(command, delays, config, earlier);
    config_stays(command, delays, config, earlier);
    valid_after(start, earlier);
    reveal(stepped);
    if run.queue.len() > 1 {
        assert(run.pending().is_effect());
    }
    run.phase->Running_stage
}

/// What putting the screen off does: it asks what is shown; where that is the configured port
/// it puts the panel off, and failing that the television; where it is not told it puts the
/// television off; the marker is made after whatever worked, and goes where something else is
/// shown.
#[verifier::spinoff_prover]
#[verifier::rlimit(40)]
pub proof fn screen_off_course(delays: Delays, config: Config, history: Seq<Step>)
    requires
        is_history(RunView::started(Command::ScreenOff, delays, config), history),
    ensures
        ({
            let queue = run_after(RunView::started(Command::ScreenOff, delays, config), history).queue;
            &&& history.len() == 0 ==> queue == seq![ActionView::Tv(config.tv_ip, TvCommand::QueryInput)]
            &&& has_answer(history) ==> match (history.last().action, history.last().outcome) {
                (ActionView::Tv(_, TvCommand::QueryInput), OutcomeView::Input(current)) => if current == CurrentInputView::Hdmi(config.input) {
                    queue == seq![
                        ActionView::Log("LG Buddy Screen Off: TV is on "@ + config.input.text() + ". Attempting screen blank for idle..."@),
                        ActionView::Tv(config.tv_ip, TvCommand::BlankScreen),
                    ]
                } else {
                    queue == seq![
                        ActionView::MarkerClear,
                        ActionView::Log("LG Buddy Screen Off: TV is on "@ + current.text() + " (not "@ + config.input.text() + "). Skipping idle action."@),
                        ActionView::Finish(Ok(())),
                    ]
                },
                (ActionView::Tv(_, TvCommand::QueryInput), OutcomeView::TvFailed(error)) => queue == seq![
                    ActionView::Log("LG Buddy Screen Off: Could not query TV input. Falling back to power_off. "@ + error.message),
                    ActionView::Tv(config.tv_ip, TvCommand::PowerOff),
                ],
                (ActionView::Tv(_, TvCommand::BlankScreen), OutcomeView::Done) => queue == seq![
                    ActionView::MarkerCreate,
                    ActionView::Log("LG Buddy Screen Off: Screen blank command succeeded."@),
                    ActionView::Finish(Ok(())),
                ],
                (ActionView::Tv(_, TvCommand::BlankScreen), OutcomeView::TvFailed(error)) => queue == seq![
                    ActionView::Log("LG Buddy Screen Off: Screen blank failed. Falling back to power_off. "@ + error.message),
                    ActionView::Tv(config.tv_ip, TvCommand::PowerOff),
                ],
                (ActionView::Tv(_, TvCommand::PowerOff), OutcomeView::Done) => queue == seq![
                    ActionView::MarkerCreate,
                    ActionView::Log("LG Buddy Screen Off: Fallback power_off succeeded."@),
                    ActionView::Finish(Ok(())),
                ],
                (ActionView::Tv(_, TvCommand::PowerOff), OutcomeView::TvFailed(error)) => queue == seq![
                    if done(Kind::Blank, history) > 0 {
                        ActionView::Log("LG Buddy Screen Off: Fallback power_off failed. "@ + error.message)
                    } else {
                        ActionView::Log("LG Buddy Screen Off: Could not power off the TV (may already be off or unreachable). "@ + error.message)
                    },
                    ActionView::Finish(Ok(())),
                ],
                _ => false,
            }
        }),
{
    if has_answer(history) {
        let stage = lemma_answer(Command::ScreenOff, delays, config, history);
        assert(history.drop_last().push(history.last()) =~= history);
    }
}

/// What putting the screen back on does, where the marker is there or the policy does without:
/// it puts the panel on; failing that, where the television says that it is active, it shows
/// the configured port; failing that it sends a wake packet, pauses and tries to show the port,
/// again and again up to six times. The marker goes once something worked.
#[verifier::spinoff_prover]
#[verifier::rlimit(40)]
pub proof fn screen_on_course(delays: Delays, config: Config, history: Seq<Step>)
    requires
        is_history(RunView::started(Command::ScreenOn, delays, config), history),
    ensures
        ({
            let queue = run_after(RunView::started(Command::ScreenOn, delays, config), history).queue;
            let woken = done(Kind::Wake, history);
            &&& history.len() == 0 ==> queue == seq![ActionView::MarkerExists]
            &&& has_answer(history) ==> match (history.last().action, history.last().outcome) {
                (ActionView::MarkerExists, OutcomeView::Flag(found)) => if found {
                    queue == seq![
                        ActionView::Log("LG Buddy Screen On: Turning TV on (screen wake) using input "@ + config.input.text() + "..."@),
                        ActionView::Log("LG Buddy Screen On: Attempting screen unblank..."@),
                        ActionView::Tv(config.tv_ip, TvCommand::UnblankScreen),
                    ]
                } else if config.screen_restore_policy is Aggressive {
                    queue == seq![
                        ActionView::Log("LG Buddy Screen On"@ + ": State file not found. Aggressive restore policy is enabled, so LG Buddy will attempt wake anyway."@),
                        ActionView::Log("LG Buddy Screen On: Turning TV on (screen wake) using input "@ + config.input.text() + "..."@),
                        ActionView::Log("LG Buddy Screen On: Attempting screen unblank..."@),
                        ActionView::Tv(config.tv_ip, TvCommand::UnblankScreen),
                    ]
                } else {
                    queue == seq![
                        ActionView::Log("LG Buddy Screen On: State file not found. TV was not turned off by LG Buddy. Skipping wake."@),
                        ActionView::Finish(Ok(())),
                    ]
                },
                (ActionView::Tv(_, TvCommand::UnblankScreen), OutcomeView::Done) => queue == seq![
                    ActionView::Log("LG Buddy Screen On: Screen unblank succeeded. Clearing wake state."@),
                    ActionView::MarkerClear,
                    ActionView::Finish(Ok(())),
                ],
                (ActionView::Tv(_, TvCommand::UnblankScreen), OutcomeView::TvFailed(error)) => queue
                    == if error.active_screen {
                    seq![
                        ActionView::Log("LG Buddy Screen On: TV reported an active screen state. Trying immediate input restore before full wake."@),
                        ActionView::Tv(config.tv_ip, TvCommand::SetInput(config.input)),
                    ]
                } else {
                    seq![
                            ActionView::Log("LG Buddy Screen On: Screen unblank failed. Falling back to full wake."@),
                            ActionView::Log("LG Buddy Screen On: Sending initial Wake-on-LAN packet..."@),
                            ActionView::Tv(config.tv_ip, TvCommand::Wake(config.tv_mac)),
                        ]
                },
                (ActionView::Tv(_, TvCommand::SetInput(_)), OutcomeView::Done) => queue == seq![
                    if woken == 0 {
                        ActionView::Log("LG Buddy Screen On: Immediate input restore succeeded. Clearing wake state."@)
                    } else {
                        ActionView::Log("LG Buddy Screen On: Wake attempt "@ + decimal(woken) + " succeeded. Clearing wake state."@)
                    },
                    ActionView::MarkerClear,
                    ActionView::Finish(Ok(())),
                ],
                (ActionView::Tv(_, TvCommand::SetInput(_)), OutcomeView::TvFailed(_)) => queue == if woken == 0 {
                    seq![
                            ActionView::Log("LG Buddy Screen On: Screen unblank failed. Falling back to full wake."@),
                            ActionView::Log("LG Buddy Screen On: Sending initial Wake-on-LAN packet..."@),
                            ActionView::Tv(config.tv_ip, TvCommand::Wake(config.tv_mac)),
                        ]
                } else {
                    seq![
                        ActionView::Log("LG Buddy Screen On: Wake attempt "@ + decimal(woken) + " failed. Resending WoL and retrying in "@ + decimal(delays.screen_on_after(woken as u32) as nat) + "s..."@),
                        ActionView::Tv(config.tv_ip, TvCommand::Wake(config.tv_mac)),
                    ]
                },
                (ActionView::Tv(_, TvCommand::Wake(_)), _) => queue == (match history.last().outcome {
                    OutcomeView::TvFailed(error) => seq![
                        ActionView::Log("LG Buddy Screen On"@ + ": Wake-on-LAN send failed. Continuing anyway. "@ + error.message),
                    ],
                    _ => seq![],
                }) + seq![
                    ActionView::Sleep(
                        if woken == 1 {
                            delays.screen_on_initial()
                        } else {
                            delays.screen_on_after((woken - 1) as u32)
                        },
                    ),
                ] + if woken <= 6 {
                    seq![
                        ActionView::Log("LG Buddy Screen On: Wake attempt "@ + decimal(woken) + ": setting input to "@ + config.input.text() + "..."@),
                        ActionView::Tv(config.tv_ip, TvCommand::SetInput(config.input)),
                    ]
                } else {
                    seq![
                        ActionView::Log("LG Buddy Screen On: Wake failed after "@ + decimal(6) + " attempts. LG Buddy will retry on the next restore event."@),
                        ActionView::Finish(
                            Err(
                                RunErrorView::Policy(
                                    "screen-on wake sequence failed after "@ + decimal(6) + " attempts"@,
                                ),
                            ),
                        ),
                    ]
                },
                _ => false,
            }
        }),
{
    if has_answer(history) {
        let stage = lemma_answer(Command::ScreenOn, delays, config, history);
        assert(history.drop_last().push(history.last()) =~= history);
    }
}

/// What a start does: it looks for the marker, waits for the network and, unless it is a wake
/// without the marker under a policy that asks for it, removes the marker, sends a wake packet,
/// pauses and tries to show the configured port, again and again up to six times.
#[verifier::spinoff_prover]
#[verifier::rlimit(40)]
pub proof fn startup_course(mode: StartupMode, delays: Delays, config: Config, history: Seq<Step>)
    requires
        is_history(RunView::started(Command::Startup(mode), delays, config), history),
    ensures
        ({
            let queue = run_after(RunView::started(Command::Startup(mode), delays, config), history).queue;
            let woken = done(Kind::Wake, history);
            &&& history.len() == 0 ==> queue == seq![ActionView::MarkerExists]
            &&& has_answer(history) ==> match (history.last().action, history.last().outcome) {
                (ActionView::MarkerExists, OutcomeView::Flag(found)) => queue == if history.len() > 1 {
                    seq![
                        if found {
                            ActionView::Log("LG Buddy Startup: Wake from sleep: LG Buddy turned TV off. Restoring."@)
                        } else {
                            ActionView::Log("LG Buddy Startup: Cold boot: Turning TV on and switching to "@ + config.input.text() + "."@)
                        },
                        ActionView::MarkerClear,
                        ActionView::Tv(config.tv_ip, TvCommand::Wake(config.tv_mac)),
                    ]
                } else {
                    match mode {
                        StartupMode::Auto => seq![ActionView::WaitForNetwork, ActionView::MarkerExists],
                        StartupMode::Boot => seq![
                            ActionView::WaitForNetwork,
                            ActionView::Log("LG Buddy Startup: Cold boot: Turning TV on and switching to "@ + config.input.text() + "."@),
                            ActionView::MarkerClear,
                            ActionView::Tv(config.tv_ip, TvCommand::Wake(config.tv_mac)),
                        ],
                        StartupMode::Wake => if found {
                            seq![
                                ActionView::WaitForNetwork,
                                ActionView::Log("LG Buddy Startup: Wake from sleep: LG Buddy turned TV off. Restoring."@),
                                ActionView::MarkerClear,
                                ActionView::Tv(config.tv_ip, TvCommand::Wake(config.tv_mac)),
                            ]
                        } else if config.screen_restore_policy is Aggressive {
                            seq![
                                ActionView::WaitForNetwork,
                                ActionView::Log("LG Buddy Startup"@ + ": State file not found. Aggressive restore policy is enabled, so LG Buddy will attempt wake anyway."@),
                                ActionView::Log("LG Buddy Startup: Wake from sleep: Restoring display state."@),
                                ActionView::MarkerClear,
                                ActionView::Tv(config.tv_ip, TvCommand::Wake(config.tv_mac)),
                            ]
                        } else {
                            seq![
                                ActionView::WaitForNetwork,
                                ActionView::Log("LG Buddy Startup: Wake from sleep: TV was not on our input. Skipping."@),
                                ActionView::Finish(Ok(())),
                            ]
                        },
                    }
                },
                (ActionView::Tv(_, TvCommand::SetInput(_)), OutcomeView::Done) => queue == seq![
                    ActionView::Log("LG Buddy Startup: TV turned on and set to "@ + config.input.text() + "."@),
                    ActionView::Finish(Ok(())),
                ],
                (ActionView::Tv(_, TvCommand::SetInput(_)), OutcomeView::TvFailed(_)) => queue == seq![
                    ActionView::Log("LG Buddy Startup: Attempt "@ + decimal(woken) + " failed, retrying in "@ + decimal(delays.startup_after(woken as u32) as nat) + "s..."@),
                    ActionView::Tv(config.tv_ip, TvCommand::Wake(config.tv_mac)),
                ],
                (ActionView::Tv(_, TvCommand::Wake(_)), _) => queue == (match history.last().outcome {
                    OutcomeView::TvFailed(error) => seq![
                        ActionView::Log("LG Buddy Startup"@ + ": Wake-on-LAN send failed. Continuing anyway. "@ + error.message),
                    ],
                    _ => seq![],
                }) + seq![
                    ActionView::Sleep(
                        if woken == 1 {
                            delays.startup_initial()
                        } else {
                            delays.startup_after((woken - 1) as u32)
                        },
                    ),
                ] + if woken <= 6 {
                    seq![ActionView::Tv(config.tv_ip, TvCommand::SetInput(config.input))]
                } else {
                    seq![
                        ActionView::Log("LG Buddy Startup: set_input failed after "@ + decimal(6) + " attempts"@),
                        ActionView::Finish(Ok(())),
                    ]
                },
                _ => false,
            }
        }),
{
    if has_answer(history) {
        let stage = lemma_answer(Command::Startup(mode), delays, config, history);
        assert(history.drop_last().push(history.last()) =~= history);
    }
}

/// What the switch-off before a sleep does: it looks for the marker and asks up to four times
/// what is shown. Where that is the configured port it switches the television off once; where
/// it is something else the marker goes; where it is not told it tries up to four times to
/// switch the television off. The marker is made where that worked, and where it did not it
/// stays as it was found.
#[verifier::spinoff_prover]
#[verifier::rlimit(40)]
pub proof fn sleep_pre_course(delays: Delays, config: Config, history: Seq<Step>)
    requires
        is_history(RunView::started(Command::SleepPre, delays, config), history),
    ensures
        ({
            let queue = run_after(RunView::started(Command::SleepPre, delays, config), history).queue;
            &&& history.len() == 0 ==> queue == seq![ActionView::MarkerExists]
            &&& has_answer(history) ==> match (history.last().action, history.last().outcome) {
                (ActionView::MarkerExists, _) => queue == seq![ActionView::Tv(config.tv_ip, TvCommand::QueryInput)],
                (ActionView::Tv(_, TvCommand::QueryInput), OutcomeView::Input(current)) => queue == if current == CurrentInputView::Hdmi(config.input) {
                    seq![
                        ActionView::Log("LG Buddy Sleep Pre: TV is on "@ + config.input.text() + ". Turning off for sleep."@),
                        ActionView::Tv(config.tv_ip, TvCommand::PowerOff),
                    ]
                } else {
                    seq![
                        ActionView::MarkerClear,
                        ActionView::Log("LG Buddy Sleep Pre: TV is on "@ + current.text() + " (not "@ + config.input.text() + "). Skipping."@),
                        ActionView::Finish(Ok(())),
                    ]
                },
                (ActionView::Tv(_, TvCommand::QueryInput), _) => queue == if done(
                    Kind::QueryInput,
                    history,
                ) < 4 {
                    seq![ActionView::Sleep(delays.before_sleep()), ActionView::Tv(config.tv_ip, TvCommand::QueryInput)]
                } else {
                    seq![
                        ActionView::Log("LG Buddy Sleep Pre: Could not query TV input. Attempting power_off fallback."@),
                        ActionView::Tv(config.tv_ip, TvCommand::PowerOff),
                    ]
                },
                (ActionView::Tv(_, TvCommand::PowerOff), OutcomeView::Done) => queue == seq![
                    ActionView::MarkerCreate,
                    ActionView::Finish(Ok(())),
                ],
                (ActionView::Tv(_, TvCommand::PowerOff), _) => queue == if input_told(history) {
                    seq![
                        ActionView::Log("LG Buddy Sleep Pre: power_off failed on known input. State not set."@),
                        ActionView::Finish(Ok(())),
                    ]
                } else if done(Kind::PowerOff, history) < 4 {
                    seq![ActionView::Sleep(delays.before_sleep()), ActionView::Tv(config.tv_ip, TvCommand::PowerOff)]
                } else if marker_seen(history) {
                    seq![
                        ActionView::Log("LG Buddy Sleep Pre: Fallback power_off failed, but state already set by another hook. Keeping state."@),
                        ActionView::Finish(Ok(())),
                    ]
                } else {
                    seq![
                        ActionView::MarkerClear,
                        ActionView::Log("LG Buddy Sleep Pre: Fallback power_off failed after retries. Leaving state unset."@),
                        ActionView::Finish(Ok(())),
                    ]
                },
                _ => false,
            }
        }),
{
    if has_answer(history) {
        let stage = lemma_answer(Command::SleepPre, delays, config, history);
        assert(history.drop_last().push(history.last()) =~= history);
    }
}

/// What the switch-off while the network manager prepares for sleep does: where a sleep is
/// coming it asks up to four times what is shown. Where that is something else than the
/// configured port the marker goes; otherwise it looks for the marker and tries up to four
/// times to switch the television off. The marker is made where that worked, and where it did
/// not it stays as it was found.
#[verifier::spinoff_prover]
#[verifier::rlimit(40)]
pub proof fn sleep_course(delays: Delays, config: Config, history: Seq<Step>)
    requires
        is_history(RunView::started(Command::Sleep, delays, config), history),
    ensures
        ({
            let queue = run_after(RunView::started(Command::Sleep, delays, config), history).queue;
            &&& history.len() == 0 ==> queue == seq![ActionView::CheckSleepRequest]
            &&& has_answer(history) ==> match (history.last().action, history.last().outcome) {
                (ActionView::CheckSleepRequest, OutcomeView::Flag(requested)) => queue == if requested {
                    seq![ActionView::Tv(config.tv_ip, TvCommand::QueryInput)]
                } else {
                    seq![ActionView::Finish(Ok(()))]
                },
                (ActionView::CheckSleepRequest, OutcomeView::IoFailed(error)) => queue == seq![
                    ActionView::Log("LG Buddy Sleep: Could not determine NetworkManager sleep state. Skipping. "@ + error.message),
                    ActionView::Finish(Ok(())),
                ],
                (ActionView::Tv(_, TvCommand::QueryInput), OutcomeView::Input(current)) => queue == if current == CurrentInputView::Hdmi(config.input) {
                    seq![ActionView::MarkerExists]
                } else {
                    seq![ActionView::MarkerClear, ActionView::Finish(Ok(()))]
                },
                (ActionView::Tv(_, TvCommand::QueryInput), _) => queue == if done(
                    Kind::QueryInput,
                    history,
                ) < 4 {
                    seq![ActionView::Sleep(delays.before_sleep()), ActionView::Tv(config.tv_ip, TvCommand::QueryInput)]
                } else {
                    seq![ActionView::MarkerExists]
                },
                (ActionView::MarkerExists, _) => queue == seq![ActionView::Tv(config.tv_ip, TvCommand::PowerOff)],
                (ActionView::Tv(_, TvCommand::PowerOff), OutcomeView::Done) => queue == seq![
                    ActionView::MarkerCreate,
                    ActionView::Finish(Ok(())),
                ],
                (ActionView::Tv(_, TvCommand::PowerOff), _) => queue == if done(
                    Kind::PowerOff,
                    history,
                ) < 4 {
                    seq![ActionView::Sleep(delays.before_sleep()), ActionView::Tv(config.tv_ip, TvCommand::PowerOff)]
                } else if marker_seen(history) {
                    seq![ActionView::Finish(Ok(()))]
                } else {
                    seq![ActionView::MarkerClear, ActionView::Finish(Ok(()))]
                },
                _ => false,
            }
        }),
{
    if has_answer(history) {
        let stage = lemma_answer(Command::Sleep, delays, config, history);
        assert(history.drop_last().push(history.last()) =~= history);
    }
}

/// What a shutdown does: unless the computer reboots it asks what is shown, and switches the
/// television off where that is the configured port or is not told. A switch-off that fails
/// costs a line.
#[verifier::spinoff_prover]
#[verifier::rlimit(40)]
pub proof fn shutdown_course(delays: Delays, config: Config, history: Seq<Step>)
    requires
        is_history(RunView::started(Command::Shutdown, delays, config), history),
    ensures
        ({
            let queue = run_after(RunView::started(Command::Shutdown, delays, config), history).queue;
            &&& history.len() == 0 ==> queue == seq![ActionView::CheckReboot]
            &&& has_answer(history) ==> match (history.last().action, history.last().outcome) {
                (ActionView::CheckReboot, OutcomeView::Flag(reboots)) => queue == if reboots {
                    seq![ActionView::Log("LG Buddy Shutdown: Reboot; ignoring"@), ActionView::Finish(Ok(()))]
                } else {
                    seq![ActionView::Tv(config.tv_ip, TvCommand::QueryInput)]
                },
                (ActionView::CheckReboot, OutcomeView::IoFailed(error)) => queue == seq![
                    ActionView::Log("LG Buddy Shutdown: Could not determine reboot state. Continuing shutdown. "@ + error.message),
                    ActionView::Tv(config.tv_ip, TvCommand::QueryInput),
                ],
                (ActionView::Tv(_, TvCommand::QueryInput), OutcomeView::Input(current)) => queue == if current == CurrentInputView::Hdmi(config.input) {
                    seq![
                        ActionView::Log("LG Buddy Shutdown: TV is on "@ + config.input.text() + ". Turning off for shutdown."@),
                        ActionView::Tv(config.tv_ip, TvCommand::PowerOff),
                    ]
                } else {
                    seq![
                        ActionView::Log("LG Buddy Shutdown: TV is on "@ + current.text() + " (not "@ + config.input.text() + "). Skipping."@),
                        ActionView::Finish(Ok(())),
                    ]
                },
                (ActionView::Tv(_, TvCommand::QueryInput), _) => queue == seq![
                    ActionView::Log("LG Buddy Shutdown: Could not query TV input. Proceeding with power_off."@),
                    ActionView::Tv(config.tv_ip, TvCommand::PowerOff),
                ],
                (ActionView::Tv(_, TvCommand::PowerOff), OutcomeView::TvFailed(error)) => queue == seq![
                    ActionView::Log("LG Buddy Shutdown: power_off failed, continuing shutdown. "@ + error.message),
                    ActionView::Finish(Ok(())),
                ],
                (ActionView::Tv(_, TvCommand::PowerOff), _) => queue == seq![ActionView::Finish(Ok(()))],
                _ => false,
            }
        }),
{
    if has_answer(history) {
        let stage = lemma_answer(Command::Shutdown, delays, config, history);
        assert(history.drop_last().push(history.last()) =~= history);
    }
}

/// What the change of the brightness does: where the television answers it asks how bright it
/// is, lets the user choose from there, or from fifty where it is not told, and sets what was
/// chosen. What goes wrong is shown and ends the command.
#[verifier::spinoff_prover]
#[verifier::rlimit(40)]
pub proof fn brightness_course(delays: Delays, config: Config, history: Seq<Step>)
    requires
        is_history(RunView::started(Command::Brightness, delays, config), history),
    ensures
        ({
            let queue = run_after(RunView::started(Command::Brightness, delays, config), history).queue;
            &&& history.len() == 0 ==> queue == seq![ActionView::CheckReachable(config.tv_ip)]
            &&& has_answer(history) ==> match (history.last().action, history.last().outcome) {
                (ActionView::CheckReachable(_), OutcomeView::Flag(reachable)) => queue == if reachable {
                    seq![ActionView::Tv(config.tv_ip, TvCommand::QueryBrightness)]
                } else {
                    seq![
                        ActionView::ShowError { title: "LG Buddy"@, message: "TV is not reachable at "@ + config.tv_ip.text() + "."@ },
                        ActionView::Finish(Err(RunErrorView::Policy("TV is not reachable at "@ + config.tv_ip.text() + "."@))),
                    ]
                },
                (ActionView::CheckReachable(_), OutcomeView::IoFailed(error)) => queue == seq![
                        ActionView::ShowError { title: "LG Buddy"@, message: "Could not check TV reachability at "@ + config.tv_ip.text() + ". "@ + error.message },
                        ActionView::Finish(Err(RunErrorView::Policy("Could not check TV reachability at "@ + config.tv_ip.text() + ". "@ + error.message))),
                    ],
                (ActionView::Tv(_, TvCommand::QueryBrightness), OutcomeView::Brightness(value)) => queue == seq![
                    ActionView::PromptBrightness(value),
                ],
                (ActionView::Tv(_, TvCommand::QueryBrightness), _) => queue == seq![
                    ActionView::PromptBrightness(50),
                ],
                (ActionView::PromptBrightness(_), OutcomeView::Choice(Some(value))) => queue == seq![
                    ActionView::Tv(config.tv_ip, TvCommand::SetBrightness(value)),
                ],
                (ActionView::PromptBrightness(_), OutcomeView::Choice(None)) => queue == seq![ActionView::Finish(Ok(()))],
                (ActionView::PromptBrightness(_), OutcomeView::IoFailed(error)) => queue == seq![
                    ActionView::Finish(Err(RunErrorView::Io(error))),
                ],
                (ActionView::Tv(_, TvCommand::SetBrightness(value)), OutcomeView::Done) => queue == seq![
                    ActionView::Notify {
                        title: "LG TV"@,
                        message: "Brightness set to "@ + decimal(value as nat) + "%"@,
                    },
                    ActionView::Log("LG Buddy Brightness: Set OLED pixel brightness to "@ + decimal(value as nat) + "%."@),
                    ActionView::Finish(Ok(())),
                ],
                (ActionView::Tv(_, TvCommand::SetBrightness(_)), OutcomeView::TvFailed(error)) => queue == seq![
                    ActionView::Notify { title: "LG TV"@, message: "Failed to set brightness"@ },
                    ActionView::Finish(
                        Err(RunErrorView::Policy("failed to set brightness: "@ + error.message)),
                    ),
                ],
                _ => false,
            }
        }),
{
    if has_answer(history) {
        let stage = lemma_answer(Command::Brightness, delays, config, history);
        assert(history.drop_last().push(history.last()) =~= history);
    }
}

} // verus!
