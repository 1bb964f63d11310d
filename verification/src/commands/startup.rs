//! Putting the television on when the computer starts or wakes.

use crate::commands::{finished, is_plan, log_markerless_restore_notice, log_wake_failure, markerless_notice, may_restore, restore_is_allowed, tell, tv, wake_notice};
use crate::config::Config;
use crate::delay::{startup_initial_wake_delay, startup_retry_delay, Delays};
use crate::effects::{action_views, Action, ActionView, Outcome, OutcomeView, StartupMode, TvCommand};
use crate::number::{decimal, decimal_string};
use crate::text::{text3, text5};
use vstd::prelude::*;

verus! {

/// How often the port is set after a wake packet.
pub const STARTUP_WAKE_ATTEMPTS: u32 = 6;

/// What the command waits for.
#[derive(Debug, Clone, Copy, PartialEq, Eq, Structural)]
pub enum StartupStage {
    /// Whether the marker exists.
    Marker(StartupMode),
    /// Whether the marker still exists when the network is up.
    NetworkMarker,
    /// Whether the first wake packet was sent.
    FirstWake,
    /// Whether the television shows the configured port, at the attempt with this number.
    Attempt(u32),
    /// Whether the wake packet after the attempt with this number was sent.
    Rewake(u32),
}

impl StartupStage {
    /// The request whose outcome the stage waits for.
    pub open spec fn request(self, config: Config) -> ActionView {
        match self {
            StartupStage::Marker(_) | StartupStage::NetworkMarker => ActionView::MarkerExists,
            StartupStage::Attempt(_) => tv(config, TvCommand::SetInput(config.input)),
            StartupStage::FirstWake | StartupStage::Rewake(_) => tv(
                config,
                TvCommand::Wake(config.tv_mac),
            ),
        }
    }

    /// Whether the attempts are counted from one up to the last.
    pub open spec fn counted(self) -> bool {
        match self {
            StartupStage::Attempt(attempt) | StartupStage::Rewake(attempt) => 1 <= attempt
                <= STARTUP_WAKE_ATTEMPTS,
            _ => true,
        }
    }
}

/// The first actions.
pub open spec fn opening(mode: StartupMode) -> (Seq<ActionView>, StartupStage) {
    (seq![ActionView::MarkerExists], StartupStage::Marker(mode))
}

/// What is written about a wake with a marker.
pub open spec fn wake_line() -> ActionView {
    ActionView::Log("LG Buddy Startup: Wake from sleep: LG Buddy turned TV off. Restoring."@)
}

/// What is written about a cold boot.
pub open spec fn boot_line(config: Config) -> ActionView {
    ActionView::Log(
        "LG Buddy Startup: Cold boot: Turning TV on and switching to "@ + config.input.text()
            + "."@,
    )
}

/// The marker goes and the first wake packet is sent.
pub open spec fn start_wake(config: Config) -> Seq<ActionView> {
    seq![ActionView::MarkerClear, tv(config, TvCommand::Wake(config.tv_mac))]
}

/// What follows when it is known whether the marker exists: the wait for the network, then
/// what the mode calls for.
pub open spec fn marker_plan(config: Config, mode: StartupMode, marker_exists: bool) -> (
    Seq<ActionView>,
    Option<StartupStage>,
) {
    let wait = seq![ActionView::WaitForNetwork];
    match mode {
        StartupMode::Wake => if !may_restore(config.screen_restore_policy, marker_exists) {
            (
                wait + seq![
                    ActionView::Log(
                        "LG Buddy Startup: Wake from sleep: TV was not on our input. Skipping."@,
                    ),
                    finished(),
                ],
                None,
            )
        } else if marker_exists {
            (wait + seq![wake_line()] + start_wake(config), Some(StartupStage::FirstWake))
        } else {
            (
                wait + seq![
                    markerless_notice("LG Buddy Startup"@),
                    ActionView::Log(
                        "LG Buddy Startup: Wake from sleep: Restoring display state."@,
                    ),
                ] + start_wake(config),
                Some(StartupStage::FirstWake),
            )
        },
        StartupMode::Boot => (
            wait + seq![boot_line(config)] + start_wake(config),
            Some(StartupStage::FirstWake),
        ),
        StartupMode::Auto => (
            wait + seq![ActionView::MarkerExists],
            Some(StartupStage::NetworkMarker),
        ),
    }
}

/// What follows from what came of the request of a stage.
pub open spec fn plan(
    config: Config,
    delays: Delays,
    stage: StartupStage,
    outcome: OutcomeView,
) -> (Seq<ActionView>, Option<StartupStage>) {
    match (stage, outcome) {
        (StartupStage::Marker(mode), OutcomeView::Flag(marker_exists)) => marker_plan(
            config,
            mode,
            marker_exists,
        ),
        (StartupStage::NetworkMarker, OutcomeView::Flag(marker_exists)) => (
            seq![
                if marker_exists {
                    wake_line()
                } else {
                    boot_line(config)
                },
            ] + start_wake(config),
            Some(StartupStage::FirstWake),
        ),
        (StartupStage::FirstWake, _) => (
            wake_notice("LG Buddy Startup"@, outcome) + seq![
                ActionView::Sleep(delays.startup_initial()),
                tv(config, TvCommand::SetInput(config.input)),
            ],
            Some(StartupStage::Attempt(1)),
        ),
        (StartupStage::Attempt(_), OutcomeView::Done) => (
            seq![
                ActionView::Log(
                    "LG Buddy Startup: TV turned on and set to "@ + config.input.text() + "."@,
                ),
                finished(),
            ],
            None,
        ),
        (StartupStage::Attempt(attempt), _) => (
            seq![
                ActionView::Log(
                    "LG Buddy Startup: Attempt "@ + decimal(attempt as nat)
                        + " failed, retrying in "@ + decimal(delays.startup_after(attempt) as nat)
                        + "s..."@,
                ),
                tv(config, TvCommand::Wake(config.tv_mac)),
            ],
            Some(StartupStage::Rewake(attempt)),
        ),
        (StartupStage::Rewake(attempt), _) => if attempt < STARTUP_WAKE_ATTEMPTS {
            (
                wake_notice("LG Buddy Startup"@, outcome) + seq![
                    ActionView::Sleep(delays.startup_after(attempt)),
                    tv(config, TvCommand::SetInput(config.input)),
                ],
                Some(StartupStage::Attempt((attempt + 1) as u32)),
            )
        } else {
            (
                wake_notice("LG Buddy Startup"@, outcome) + seq![
                    ActionView::Sleep(delays.startup_after(attempt)),
                    ActionView::Log(
                        "LG Buddy Startup: set_input failed after "@ + decimal(
                            STARTUP_WAKE_ATTEMPTS as nat,
                        ) + " attempts"@,
                    ),
                    finished(),
                ],
                None,
            )
        },
        _ => (seq![finished()], None),
    }
}

/// A plan is effects, then the request of the next stage or the end.
pub proof fn lemma_plan(config: Config, delays: Delays, stage: StartupStage, outcome: OutcomeView)
    requires
        stage.counted(),
    ensures
        match plan(config, delays, stage, outcome).1 {
            Some(next) => next.counted() && is_plan(
                plan(config, delays, stage, outcome).0,
                next.request(config),
            ),
            None => is_plan(plan(config, delays, stage, outcome).0, finished()),
        },
{
}

/// The first actions.
pub fn open(mode: StartupMode) -> (start: (Vec<Action>, StartupStage))
    ensures
        (action_views(start.0@), start.1) == opening(mode),
{
    let actions: Vec<Action> = vec![Action::MarkerExists];
    assert(action_views(actions@) =~= opening(mode).0);
    (actions, StartupStage::Marker(mode))
}

/// What is written about a wake with a marker.
fn log_wake() -> (line: Action)
    ensures
        line@ == wake_line(),
{
    Action::Log(
        "LG Buddy Startup: Wake from sleep: LG Buddy turned TV off. Restoring.".to_owned(),
    )
}

/// What is written about a cold boot.
fn log_boot(config: &Config) -> (line: Action)
    ensures
        line@ == boot_line(*config),
{
    Action::Log(
        text3(
            "LG Buddy Startup: Cold boot: Turning TV on and switching to ",
            config.input.as_str(),
            ".",
        ),
    )
}

/// Adds what removes the marker and sends the first wake packet.
fn push_wake(actions: &mut Vec<Action>, config: &Config)
    ensures
        action_views(final(actions)@) == action_views(old(actions)@) + start_wake(*config),
{
    actions.push(Action::MarkerClear);
    actions.push(tell(config, TvCommand::Wake(config.tv_mac)));
    assert(action_views(actions@) =~= action_views(old(actions)@) + start_wake(*config));
}

/// What follows when it is known whether the marker exists.
fn decide_marker(config: &Config, mode: StartupMode, marker_exists: bool) -> (next: (
    Vec<Action>,
    Option<StartupStage>,
))
    ensures
        (action_views(next.0@), next.1) == marker_plan(*config, mode, marker_exists),
{
    let ghost wanted = marker_plan(*config, mode, marker_exists).0;
    let mut actions: Vec<Action> = vec![Action::WaitForNetwork];
    match mode {
        StartupMode::Wake => {
            if !restore_is_allowed(config.screen_restore_policy, marker_exists) {
                actions.push(
                    Action::Log(
                        "LG Buddy Startup: Wake from sleep: TV was not on our input. Skipping.".to_owned(),
                    ),
                );
                actions.push(Action::Finish(Ok(())));
                assert(action_views(actions@) =~= wanted);
                return (actions, None);
            }
            if marker_exists {
                actions.push(log_wake());
            } else {
                actions.push(log_markerless_restore_notice("LG Buddy Startup"));
                actions.push(
                    Action::Log(
                        "LG Buddy Startup: Wake from sleep: Restoring display state.".to_owned(),
                    ),
                );
            }
        },
        StartupMode::Boot => {
            actions.push(log_boot(config));
        },
        StartupMode::Auto => {
            actions.push(Action::MarkerExists);
            assert(action_views(actions@) =~= wanted);
            return (actions, Some(StartupStage::NetworkMarker));
        },
    }
    push_wake(&mut actions, config);
    assert(action_views(actions@) =~= wanted);
    (actions, Some(StartupStage::FirstWake))
}

/// What follows when the wake packet after an attempt went out, or did not.
fn decide_rewake(config: &Config, delays: &Delays, attempt: u32, outcome: &Outcome) -> (next: (
    Vec<Action>,
    Option<StartupStage>,
))
    requires
        1 <= attempt <= STARTUP_WAKE_ATTEMPTS,
    ensures
        (action_views(next.0@), next.1) == plan(
            *config,
            *delays,
            StartupStage::Rewake(attempt),
            outcome@,
        ),
{
    let ghost wanted = plan(*config, *delays, StartupStage::Rewake(attempt), outcome@).0;
    let mut actions = log_wake_failure("LG Buddy Startup", outcome);
    actions.push(Action::Sleep(startup_retry_delay(delays, attempt)));
    if attempt < STARTUP_WAKE_ATTEMPTS {
        actions.push(tell(config, TvCommand::SetInput(config.input)));
        assert(action_views(actions@) =~= wanted);
        (actions, Some(StartupStage::Attempt(attempt + 1)))
    } else {
        actions.push(
            Action::Log(
                text3(
                    "LG Buddy Startup: set_input failed after ",
                    decimal_string(STARTUP_WAKE_ATTEMPTS as u64).as_str(),
                    " attempts",
                ),
            ),
        );
        actions.push(Action::Finish(Ok(())));
        assert(action_views(actions@) =~= wanted);
        (actions, None)
    }
}

/// What follows from what came of the request of a stage.
pub fn decide(config: &Config, delays: &Delays, stage: StartupStage, outcome: &Outcome) -> (next: (
    Vec<Action>,
    Option<StartupStage>,
))
    requires
        stage.counted(),
        stage.request(*config).answered_by(outcome@),
    ensures
        (action_views(next.0@), next.1) == plan(*config, *delays, stage, outcome@),
{
    let ghost wanted = plan(*config, *delays, stage, outcome@).0;
    match (stage, outcome) {
        (StartupStage::Marker(mode), Outcome::Flag(marker_exists)) => {
            decide_marker(config, mode, *marker_exists)
        },
        (StartupStage::NetworkMarker, Outcome::Flag(marker_exists)) => {
            let mut actions: Vec<Action> = Vec::new();
            if *marker_exists {
                actions.push(log_wake());
            } else {
                actions.push(log_boot(config));
            }
            push_wake(&mut actions, config);
            assert(action_views(actions@) =~= wanted);
            (actions, Some(StartupStage::FirstWake))
        },
        (StartupStage::FirstWake, _) => {
            let mut actions = log_wake_failure("LG Buddy Startup", outcome);
            actions.push(Action::Sleep(startup_initial_wake_delay(delays)));
            actions.push(tell(config, TvCommand::SetInput(config.input)));
            assert(action_views(actions@) =~= wanted);
            (actions, Some(StartupStage::Attempt(1)))
        },
        (StartupStage::Attempt(_), Outcome::Done) => {
            let actions: Vec<Action> = vec![
                Action::Log(
                    text3(
                        "LG Buddy Startup: TV turned on and set to ",
                        config.input.as_str(),
                        ".",
                    ),
                ),
                Action::Finish(Ok(())),
            ];
            assert(action_views(actions@) =~= wanted);
            (actions, None)
        },
        (StartupStage::Attempt(attempt), _) => {
            let actions: Vec<Action> = vec![
                Action::Log(
                    text5(
                        "LG Buddy Startup: Attempt ",
                        decimal_string(attempt as u64).as_str(),
                        " failed, retrying in ",
                        decimal_string(startup_retry_delay(delays, attempt)).as_str(),
                        "s...",
                    ),
                ),
                tell(config, TvCommand::Wake(config.tv_mac)),
            ];
            assert(action_views(actions@) =~= wanted);
            (actions, Some(StartupStage::Rewake(attempt)))
        },
        (StartupStage::Rewake(attempt), _) => decide_rewake(config, delays, attempt, outcome),
        _ => {
            let actions: Vec<Action> = vec![Action::Finish(Ok(()))];
            assert(action_views(actions@) =~= wanted);
            (actions, None)
        },
    }
}

} // verus!
