//! Putting the screen back on when the session is used again.

use crate::commands::{finished, is_plan, log_markerless_restore_notice, log_wake_failure, markerless_notice, may_restore, restore_is_allowed, tell, tv, wake_notice};
use crate::config::Config;
use crate::delay::{screen_on_initial_wake_delay, screen_on_retry_delay, Delays};
use crate::effects::{action_views, Action, ActionView, Outcome, OutcomeView, RunError, RunErrorView, TvCommand};
use crate::number::{decimal, decimal_string};
use crate::text::{text3, text5};
use vstd::prelude::*;

verus! {

/// How often the port is set after a wake packet.
pub const SCREEN_ON_WAKE_ATTEMPTS: u32 = 6;

/// What the command waits for.
#[derive(Debug, Clone, Copy, PartialEq, Eq, Structural)]
pub enum ScreenOnStage {
    /// Whether the marker exists.
    Marker,
    /// Whether the panel went on.
    Unblank,
    /// Whether an active television shows the configured port.
    Restore,
    /// Whether the first wake packet was sent.
    FirstWake,
    /// Whether the television shows the configured port, at the attempt with this number.
    Attempt(u32),
    /// Whether the wake packet after the attempt with this number was sent.
    Rewake(u32),
}

impl ScreenOnStage {
    /// The request whose outcome the stage waits for.
    pub open spec fn request(self, config: Config) -> ActionView {
        match self {
            ScreenOnStage::Marker => ActionView::MarkerExists,
            ScreenOnStage::Unblank => tv(config, TvCommand::UnblankScreen),
            ScreenOnStage::Restore | ScreenOnStage::Attempt(_) => tv(
                config,
                TvCommand::SetInput(config.input),
            ),
            ScreenOnStage::FirstWake | ScreenOnStage::Rewake(_) => tv(
                config,
                TvCommand::Wake(config.tv_mac),
            ),
        }
    }

    /// Whether the attempts are counted from one up to the last.
    pub open spec fn counted(self) -> bool {
        match self {
            ScreenOnStage::Attempt(attempt) | ScreenOnStage::Rewake(attempt) => 1 <= attempt
                <= SCREEN_ON_WAKE_ATTEMPTS,
            _ => true,
        }
    }
}

/// The first actions.
pub open spec fn opening() -> (Seq<ActionView>, ScreenOnStage) {
    (seq![ActionView::MarkerExists], ScreenOnStage::Marker)
}

/// The wake by packets.
pub open spec fn full_wake(config: Config) -> (Seq<ActionView>, Option<ScreenOnStage>) {
    (
        seq![
            ActionView::Log(
                "LG Buddy Screen On: Screen unblank failed. Falling back to full wake."@,
            ),
            ActionView::Log("LG Buddy Screen On: Sending initial Wake-on-LAN packet..."@),
            tv(config, TvCommand::Wake(config.tv_mac)),
        ],
        Some(ScreenOnStage::FirstWake),
    )
}

/// The attempt with the given number.
pub open spec fn attempt_input(config: Config, attempt: u32) -> Seq<ActionView> {
    seq![
        ActionView::Log(
            "LG Buddy Screen On: Wake attempt "@ + decimal(attempt as nat) + ": setting input to "@
                + config.input.text() + "..."@,
        ),
        tv(config, TvCommand::SetInput(config.input)),
    ]
}

/// What is done once the screen is back: a line is written and the marker goes.
pub open spec fn restored(line: Seq<char>) -> (Seq<ActionView>, Option<ScreenOnStage>) {
    (seq![ActionView::Log(line), ActionView::MarkerClear, finished()], None)
}

/// How the command ends when every attempt failed.
pub open spec fn gave_up() -> ActionView {
    ActionView::Finish(
        Err(
            RunErrorView::Policy(
                "screen-on wake sequence failed after "@ + decimal(SCREEN_ON_WAKE_ATTEMPTS as nat)
                    + " attempts"@,
            ),
        ),
    )
}

/// What follows from what came of the request of a stage.
pub open spec fn plan(
    config: Config,
    delays: Delays,
    stage: ScreenOnStage,
    outcome: OutcomeView,
) -> (Seq<ActionView>, Option<ScreenOnStage>) {
    match (stage, outcome) {
        (ScreenOnStage::Marker, OutcomeView::Flag(marker_exists)) => if !may_restore(
            config.screen_restore_policy,
            marker_exists,
        ) {
            (
                seq![
                    ActionView::Log(
                        "LG Buddy Screen On: State file not found. TV was not turned off by LG Buddy. Skipping wake."@,
                    ),
                    finished(),
                ],
                None,
            )
        } else {
            (
                (if marker_exists {
                    seq![]
                } else {
                    seq![markerless_notice("LG Buddy Screen On"@)]
                }) + seq![
                    ActionView::Log(
                        "LG Buddy Screen On: Turning TV on (screen wake) using input "@
                            + config.input.text() + "..."@,
                    ),
                    ActionView::Log("LG Buddy Screen On: Attempting screen unblank..."@),
                    tv(config, TvCommand::UnblankScreen),
                ],
                Some(ScreenOnStage::Unblank),
            )
        },
        (ScreenOnStage::Unblank, OutcomeView::Done) => restored(
            "LG Buddy Screen On: Screen unblank succeeded. Clearing wake state."@,
        ),
        (ScreenOnStage::Unblank, OutcomeView::TvFailed(error)) => if error.active_screen {
            (
                seq![
                    ActionView::Log(
                        "LG Buddy Screen On: TV reported an active screen state. Trying immediate input restore before full wake."@,
                    ),
                    tv(config, TvCommand::SetInput(config.input)),
                ],
                Some(ScreenOnStage::Restore),
            )
        } else {
            full_wake(config)
        },
        (ScreenOnStage::Restore, OutcomeView::Done) => restored(
            "LG Buddy Screen On: Immediate input restore succeeded. Clearing wake state."@,
        ),
        (ScreenOnStage::Restore, _) => full_wake(config),
        (ScreenOnStage::FirstWake, _) => (
            wake_notice("LG Buddy Screen On"@, outcome) + seq![
                ActionView::Sleep(delays.screen_on_initial()),
            ] + attempt_input(config, 1),
            Some(ScreenOnStage::Attempt(1)),
        ),
        (ScreenOnStage::Attempt(attempt), OutcomeView::Done) => restored(
            "LG Buddy Screen On: Wake attempt "@ + decimal(attempt as nat)
                + " succeeded. Clearing wake state."@,
        ),
        (ScreenOnStage::Attempt(attempt), _) => (
            seq![
                ActionView::Log(
                    "LG Buddy Screen On: Wake attempt "@ + decimal(attempt as nat)
                        + " failed. Resending WoL and retrying in "@ + decimal(
                        delays.screen_on_after(attempt) as nat,
                    ) + "s..."@,
                ),
                tv(config, TvCommand::Wake(config.tv_mac)),
            ],
            Some(ScreenOnStage::Rewake(attempt)),
        ),
        (ScreenOnStage::Rewake(attempt), _) => if attempt < SCREEN_ON_WAKE_ATTEMPTS {
            (
                wake_notice("LG Buddy Screen On"@, outcome) + seq![
                    ActionView::Sleep(delays.screen_on_after(attempt)),
                ] + attempt_input(config, (attempt + 1) as u32),
                Some(ScreenOnStage::Attempt((attempt + 1) as u32)),
            )
        } else {
            (
                wake_notice("LG Buddy Screen On"@, outcome) + seq![
                    ActionView::Sleep(delays.screen_on_after(attempt)),
                    ActionView::Log(
                        "LG Buddy Screen On: Wake failed after "@ + decimal(
                            SCREEN_ON_WAKE_ATTEMPTS as nat,
                        ) + " attempts. LG Buddy will retry on the next restore event."@,
                    ),
                    gave_up(),
                ],
                None,
            )
        },
        _ => (seq![finished()], None),
    }
}

/// A plan is effects, then the request of the next stage or the end.
pub proof fn lemma_plan(config: Config, delays: Delays, stage: ScreenOnStage, outcome: OutcomeView)
    requires
        stage.counted(),
    ensures
        match plan(config, delays, stage, outcome).1 {
            Some(next) => next.counted() && is_plan(
                plan(config, delays, stage, outcome).0,
                next.request(config),
            ),
            None => is_plan(plan(config, delays, stage, outcome).0, finished()) || is_plan(
                plan(config, delays, stage, outcome).0,
                gave_up(),
            ),
        },
{
}

/// The first actions.
pub fn open() -> (start: (Vec<Action>, ScreenOnStage))
    ensures
        (action_views(start.0@), start.1) == opening(),
{
    let actions: Vec<Action> = vec![Action::MarkerExists];
    assert(action_views(actions@) =~= opening().0);
    (actions, ScreenOnStage::Marker)
}

/// The wake by packets.
fn wake_fully(config: &Config) -> (next: (Vec<Action>, Option<ScreenOnStage>))
    ensures
        (action_views(next.0@), next.1) == full_wake(*config),
{
    let actions: Vec<Action> = vec![
        Action::Log(
            "LG Buddy Screen On: Screen unblank failed. Falling back to full wake.".to_owned(),
        ),
        Action::Log("LG Buddy Screen On: Sending initial Wake-on-LAN packet...".to_owned()),
        tell(config, TvCommand::Wake(config.tv_mac)),
    ];
    assert(action_views(actions@) =~= full_wake(*config).0);
    (actions, Some(ScreenOnStage::FirstWake))
}

/// Adds the attempt with the given number.
fn push_attempt(actions: &mut Vec<Action>, config: &Config, attempt: u32)
    ensures
        action_views(final(actions)@) == action_views(old(actions)@) + attempt_input(
            *config,
            attempt,
        ),
{
    actions.push(
        Action::Log(
            text5(
                "LG Buddy Screen On: Wake attempt ",
                decimal_string(attempt as u64).as_str(),
                ": setting input to ",
                config.input.as_str(),
                "...",
            ),
        ),
    );
    actions.push(tell(config, TvCommand::SetInput(config.input)));
    assert(action_views(actions@) =~= action_views(old(actions)@) + attempt_input(
        *config,
        attempt,
    ));
}

/// What is done once the screen is back.
fn finish_restored(line: String) -> (next: (Vec<Action>, Option<ScreenOnStage>))
    ensures
        (action_views(next.0@), next.1) == restored(line@),
{
    let actions: Vec<Action> = vec![
        Action::Log(line),
        Action::MarkerClear,
        Action::Finish(Ok(())),
    ];
    assert(action_views(actions@) =~= restored(line@).0);
    (actions, None)
}

/// What follows when it is known whether the marker exists.
fn decide_marker(config: &Config, delays: &Delays, marker_exists: bool) -> (next: (
    Vec<Action>,
    Option<ScreenOnStage>,
))
    ensures
        (action_views(next.0@), next.1) == plan(
            *config,
            *delays,
            ScreenOnStage::Marker,
            OutcomeView::Flag(marker_exists),
        ),
{
    let ghost wanted = plan(
        *config,
        *delays,
        ScreenOnStage::Marker,
        OutcomeView::Flag(marker_exists),
    ).0;
    let mut actions: Vec<Action> = Vec::new();
    if !restore_is_allowed(config.screen_restore_policy, marker_exists) {
        actions.push(
            Action::Log(
                "LG Buddy Screen On: State file not found. TV was not turned off by LG Buddy. Skipping wake.".to_owned(),
            ),
        );
        actions.push(Action::Finish(Ok(())));
        assert(action_views(actions@) =~= wanted);
        return (actions, None);
    }
    if !marker_exists {
        actions.push(log_markerless_restore_notice("LG Buddy Screen On"));
    }
    actions.push(
        Action::Log(
            text3(
                "LG Buddy Screen On: Turning TV on (screen wake) using input ",
                config.input.as_str(),
                "...",
            ),
        ),
    );
    actions.push(Action::Log("LG Buddy Screen On: Attempting screen unblank...".to_owned()));
    actions.push(tell(config, TvCommand::UnblankScreen));
    assert(action_views(actions@) =~= wanted);
    (actions, Some(ScreenOnStage::Unblank))
}

/// What follows when the wake packet after an attempt went out, or did not.
fn decide_rewake(config: &Config, delays: &Delays, attempt: u32, outcome: &Outcome) -> (next: (
    Vec<Action>,
    Option<ScreenOnStage>,
))
    requires
        1 <= attempt <= SCREEN_ON_WAKE_ATTEMPTS,
    ensures
        (action_views(next.0@), next.1) == plan(
            *config,
            *delays,
            ScreenOnStage::Rewake(attempt),
            outcome@,
        ),
{
    let ghost wanted = plan(*config, *delays, ScreenOnStage::Rewake(attempt), outcome@).0;
    let mut actions = log_wake_failure("LG Buddy Screen On", outcome);
    actions.push(Action::Sleep(screen_on_retry_delay(delays, attempt)));
    if attempt < SCREEN_ON_WAKE_ATTEMPTS {
        push_attempt(&mut actions, config, attempt + 1);
        assert(action_views(actions@) =~= wanted);
        (actions, Some(ScreenOnStage::Attempt(attempt + 1)))
    } else {
        let attempts = decimal_string(SCREEN_ON_WAKE_ATTEMPTS as u64);
        actions.push(
            Action::Log(
                text3(
                    "LG Buddy Screen On: Wake failed after ",
                    attempts.as_str(),
                    " attempts. LG Buddy will retry on the next restore event.",
                ),
            ),
        );
        actions.push(
            Action::Finish(
                Err(
                    RunError::Policy(
                        text3(
                            "screen-on wake sequence failed after ",
                            attempts.as_str(),
                            " attempts",
                        ),
                    ),
                ),
            ),
        );
        assert(action_views(actions@) =~= wanted);
        (actions, None)
    }
}

/// What follows from what came of the request of a stage.
pub fn decide(config: &Config, delays: &Delays, stage: ScreenOnStage, outcome: &Outcome) -> (next: (
    Vec<Action>,
    Option<ScreenOnStage>,
))
    requires
        stage.counted(),
        stage.request(*config).answered_by(outcome@),
    ensures
        (action_views(next.0@), next.1) == plan(*config, *delays, stage, outcome@),
{
    let ghost wanted = plan(*config, *delays, stage, outcome@).0;
    match (stage, outcome) {
        (ScreenOnStage::Marker, Outcome::Flag(marker_exists)) => {
            decide_marker(config, delays, *marker_exists)
        },
        (ScreenOnStage::Unblank, Outcome::Done) => finish_restored(
            "LG Buddy Screen On: Screen unblank succeeded. Clearing wake state.".to_owned(),
        ),
        (ScreenOnStage::Unblank, Outcome::TvFailed(error)) => if error.active_screen {
            let actions: Vec<Action> = vec![
                Action::Log(
                    "LG Buddy Screen On: TV reported an active screen state. Trying immediate input restore before full wake.".to_owned(),
                ),
                tell(config, TvCommand::SetInput(config.input)),
            ];
            assert(action_views(actions@) =~= wanted);
            (actions, Some(ScreenOnStage::Restore))
        } else {
            wake_fully(config)
        },
        (ScreenOnStage::Restore, Outcome::Done) => finish_restored(
            "LG Buddy Screen On: Immediate input restore succeeded. Clearing wake state.".to_owned(),
        ),
        (ScreenOnStage::Restore, _) => wake_fully(config),
        (ScreenOnStage::FirstWake, _) => {
            let mut actions = log_wake_failure("LG Buddy Screen On", outcome);
            actions.push(Action::Sleep(screen_on_initial_wake_delay(delays)));
            push_attempt(&mut actions, config, 1);
            assert(action_views(actions@) =~= wanted);
            (actions, Some(ScreenOnStage::Attempt(1)))
        },
        (ScreenOnStage::Attempt(attempt), Outcome::Done) => finish_restored(
            text3(
                "LG Buddy Screen On: Wake attempt ",
                decimal_string(attempt as u64).as_str(),
                " succeeded. Clearing wake state.",
            ),
        ),
        (ScreenOnStage::Attempt(attempt), _) => {
            let actions: Vec<Action> = vec![
                Action::Log(
                    text5(
                        "LG Buddy Screen On: Wake attempt ",
                        decimal_string(attempt as u64).as_str(),
                        " failed. Resending WoL and retrying in ",
                        decimal_string(screen_on_retry_delay(delays, attempt)).as_str(),
                        "s...",
                    ),
                ),
                tell(config, TvCommand::Wake(config.tv_mac)),
            ];
            assert(action_views(actions@) =~= wanted);
            (actions, Some(ScreenOnStage::Rewake(attempt)))
        },
        (ScreenOnStage::Rewake(attempt), _) => decide_rewake(config, delays, attempt, outcome),
        _ => {
            let actions: Vec<Action> = vec![Action::Finish(Ok(()))];
            assert(action_views(actions@) =~= wanted);
            (actions, None)
        },
    }
}

} // verus!
