//! Switching the television off before the computer sleeps.

use crate::commands::{finished, is_plan, once_more, query_current_input_with_retries, retry_power_off, tell, tv, SYSTEM_SLEEP_GET_INPUT_RETRIES, SYSTEM_SLEEP_POWER_OFF_RETRIES};
use crate::config::Config;
use crate::delay::Delays;
use crate::effects::{action_views, Action, ActionView, CurrentInputView, Outcome, OutcomeView, TvCommand};
use crate::text::{text3, text5};
use vstd::prelude::*;

verus! {

/// What the command waits for.
#[derive(Debug, Clone, Copy, PartialEq, Eq, Structural)]
pub enum SleepPreStage {
    /// Whether the marker exists.
    Marker,
    /// What the television shows.
    Input {
        /// Whether the marker existed at the start.
        state_was_set: bool,
        /// How often the television did not say.
        failures: u32,
    },
    /// Whether the television, which shows the configured port, switched off.
    PowerOff,
    /// Whether the television, of which nothing is known, switched off.
    Fallback {
        /// Whether the marker existed at the start.
        state_was_set: bool,
        /// The number of the attempt.
        attempt: u32,
    },
}

impl SleepPreStage {
    /// The request whose outcome the stage waits for.
    pub open spec fn request(self, config: Config) -> ActionView {
        match self {
            SleepPreStage::Marker => ActionView::MarkerExists,
            SleepPreStage::Input { .. } => tv(config, TvCommand::QueryInput),
            SleepPreStage::PowerOff | SleepPreStage::Fallback { .. } => tv(
                config,
                TvCommand::PowerOff,
            ),
        }
    }

    /// Whether the failures and attempts are within their limits.
    pub open spec fn counted(self) -> bool {
        match self {
            SleepPreStage::Input { failures, .. } => failures <= SYSTEM_SLEEP_GET_INPUT_RETRIES,
            SleepPreStage::Fallback { attempt, .. } => 1 <= attempt
                <= SYSTEM_SLEEP_POWER_OFF_RETRIES,
            _ => true,
        }
    }
}

/// The first actions.
pub open spec fn opening() -> (Seq<ActionView>, SleepPreStage) {
    (seq![ActionView::MarkerExists], SleepPreStage::Marker)
}

/// What follows from what came of the request of a stage.
pub open spec fn plan(
    config: Config,
    delays: Delays,
    stage: SleepPreStage,
    outcome: OutcomeView,
) -> (Seq<ActionView>, Option<SleepPreStage>) {
    match (stage, outcome) {
        (SleepPreStage::Marker, OutcomeView::Flag(state_was_set)) => (
            seq![tv(config, TvCommand::QueryInput)],
            Some(SleepPreStage::Input { state_was_set, failures: 0 }),
        ),
        (SleepPreStage::Input { .. }, OutcomeView::Input(current)) => if current
            == CurrentInputView::Hdmi(config.input) {
            (
                seq![
                    ActionView::Log(
                        "LG Buddy Sleep Pre: TV is on "@ + config.input.text()
                            + ". Turning off for sleep."@,
                    ),
                    tv(config, TvCommand::PowerOff),
                ],
                Some(SleepPreStage::PowerOff),
            )
        } else {
            (
                seq![
                    ActionView::MarkerClear,
                    ActionView::Log(
                        "LG Buddy Sleep Pre: TV is on "@ + current.text() + " (not "@
                            + config.input.text() + "). Skipping."@,
                    ),
                    finished(),
                ],
                None,
            )
        },
        (SleepPreStage::Input { state_was_set, failures }, _) => if failures
            < SYSTEM_SLEEP_GET_INPUT_RETRIES {
            (
                once_more(config, delays, TvCommand::QueryInput),
                Some(SleepPreStage::Input { state_was_set, failures: (failures + 1) as u32 }),
            )
        } else {
            (
                seq![
                    ActionView::Log(
                        "LG Buddy Sleep Pre: Could not query TV input. Attempting power_off fallback."@,
                    ),
                    tv(config, TvCommand::PowerOff),
                ],
                Some(SleepPreStage::Fallback { state_was_set, attempt: 1 }),
            )
        },
        (SleepPreStage::PowerOff, OutcomeView::Done) => (
            seq![ActionView::MarkerCreate, finished()],
            None,
        ),
        (SleepPreStage::PowerOff, _) => (
            seq![
                ActionView::Log(
                    "LG Buddy Sleep Pre: power_off failed on known input. State not set."@,
                ),
                finished(),
            ],
            None,
        ),
        (SleepPreStage::Fallback { .. }, OutcomeView::Done) => (
            seq![ActionView::MarkerCreate, finished()],
            None,
        ),
        (SleepPreStage::Fallback { state_was_set, attempt }, _) => if attempt
            < SYSTEM_SLEEP_POWER_OFF_RETRIES {
            (
                once_more(config, delays, TvCommand::PowerOff),
                Some(SleepPreStage::Fallback { state_was_set, attempt: (attempt + 1) as u32 }),
            )
        } else if state_was_set {
            (
                seq![
                    ActionView::Log(
                        "LG Buddy Sleep Pre: Fallback power_off failed, but state already set by another hook. Keeping state."@,
                    ),
                    finished(),
                ],
                None,
            )
        } else {
            (
                seq![
                    ActionView::MarkerClear,
                    ActionView::Log(
                        "LG Buddy Sleep Pre: Fallback power_off failed after retries. Leaving state unset."@,
                    ),
                    finished(),
                ],
                None,
            )
        },
        _ => (seq![finished()], None),
    }
}

/// A plan is effects, then the request of the next stage or the end.
pub proof fn lemma_plan(config: Config, delays: Delays, stage: SleepPreStage, outcome: OutcomeView)
    requires
        stage.counted(),
    ensures
        match plan(config, delays, stage, outcome).1 {
            Some(next) => next.counted() && is_plan(
                plan(config, delays, stage, outcome).0,
                next.request(config),
            ),
            None => is_plan(plan(config, delays, stage, outcome).0, finished()),
        },
{
}

/// The first actions.
pub fn open() -> (start: (Vec<Action>, SleepPreStage))
    ensures
        (action_views(start.0@), start.1) == opening(),
{
    let actions: Vec<Action> = vec![Action::MarkerExists];
    assert(action_views(actions@) =~= opening().0);
    (actions, SleepPreStage::Marker)
}

/// What follows from what came of the request of a stage.
pub fn decide(config: &Config, delays: &Delays, stage: SleepPreStage, outcome: &Outcome) -> (next: (
    Vec<Action>,
    Option<SleepPreStage>,
))
    requires
        stage.counted(),
        stage.request(*config).answered_by(outcome@),
    ensures
        (action_views(next.0@), next.1) == plan(*config, *delays, stage, outcome@),
{
    let next: (Vec<Action>, Option<SleepPreStage>) = match (stage, outcome) {
        (SleepPreStage::Marker, Outcome::Flag(state_was_set)) => (
            vec![tell(config, TvCommand::QueryInput)],
            Some(SleepPreStage::Input { state_was_set: *state_was_set, failures: 0 }),
        ),
        (SleepPreStage::Input { .. }, Outcome::Input(current)) => if current.is_hdmi(
            config.input,
        ) {
            (
                vec![
                    Action::Log(
                        text3(
                            "LG Buddy Sleep Pre: TV is on ",
                            config.input.as_str(),
                            ". Turning off for sleep.",
                        ),
                    ),
                    tell(config, TvCommand::PowerOff),
                ],
                Some(SleepPreStage::PowerOff),
            )
        } else {
            (
                vec![
                    Action::MarkerClear,
                    Action::Log(
                        text5(
                            "LG Buddy Sleep Pre: TV is on ",
                            current.as_str(),
                            " (not ",
                            config.input.as_str(),
                            "). Skipping.",
                        ),
                    ),
                    Action::Finish(Ok(())),
                ],
                None,
            )
        },
        (SleepPreStage::Input { state_was_set, failures }, _) => {
            match query_current_input_with_retries(
                config,
                delays,
                failures,
                SYSTEM_SLEEP_GET_INPUT_RETRIES,
            ) {
                Some(again) => (
                    again,
                    Some(SleepPreStage::Input { state_was_set, failures: failures + 1 }),
                ),
                None => (
                    vec![
                        Action::Log(
                            "LG Buddy Sleep Pre: Could not query TV input. Attempting power_off fallback.".to_owned(),
                        ),
                        tell(config, TvCommand::PowerOff),
                    ],
                    Some(SleepPreStage::Fallback { state_was_set, attempt: 1 }),
                ),
            }
        },
        (SleepPreStage::PowerOff, Outcome::Done) => (
            vec![Action::MarkerCreate, Action::Finish(Ok(()))],
            None,
        ),
        (SleepPreStage::PowerOff, _) => (
            vec![
                Action::Log(
                    "LG Buddy Sleep Pre: power_off failed on known input. State not set.".to_owned(),
                ),
                Action::Finish(Ok(())),
            ],
            None,
        ),
        (SleepPreStage::Fallback { .. }, Outcome::Done) => (
            vec![Action::MarkerCreate, Action::Finish(Ok(()))],
            None,
        ),
        (SleepPreStage::Fallback { state_was_set, attempt }, _) => {
            match retry_power_off(config, delays, attempt, SYSTEM_SLEEP_POWER_OFF_RETRIES) {
                Some(again) => (
                    again,
                    Some(SleepPreStage::Fallback { state_was_set, attempt: attempt + 1 }),
                ),
                None => if state_was_set {
                    (
                        vec![
                            Action::Log(
                                "LG Buddy Sleep Pre: Fallback power_off failed, but state already set by another hook. Keeping state.".to_owned(),
                            ),
                            Action::Finish(Ok(())),
                        ],
                        None,
                    )
                } else {
                    (
                        vec![
                            Action::MarkerClear,
                            Action::Log(
                                "LG Buddy Sleep Pre: Fallback power_off failed after retries. Leaving state unset.".to_owned(),
                            ),
                            Action::Finish(Ok(())),
                        ],
                        None,
                    )
                },
            }
        },
        _ => (vec![Action::Finish(Ok(()))], None),
    };
    assert(action_views(next.0@) =~= plan(*config, *delays, stage, outcome@).0);
    next
}

} // verus!
