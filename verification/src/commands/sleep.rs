//! Switching the television off while the network manager prepares for sleep.

use crate::commands::{finished, is_plan, once_more, query_current_input_with_retries, retry_power_off, tell, tv, SYSTEM_SLEEP_GET_INPUT_RETRIES, SYSTEM_SLEEP_POWER_OFF_RETRIES};
use crate::config::Config;
use crate::delay::Delays;
use crate::effects::{action_views, Action, ActionView, CurrentInputView, Outcome, OutcomeView, TvCommand};
use crate::text::text2;
use vstd::prelude::*;

verus! {

/// What the command waits for.
#[derive(Debug, Clone, Copy, PartialEq, Eq, Structural)]
pub enum SleepStage {
    /// Whether the computer is about to sleep.
    Request,
    /// What the television shows.
    Input {
        /// How often the television did not say.
        failures: u32,
    },
    /// Whether the marker exists.
    Marker,
    /// Whether the television switched off.
    PowerOff {
        /// Whether the marker existed before.
        state_was_set: bool,
        /// The number of the attempt.
        attempt: u32,
    },
}

impl SleepStage {
    /// The request whose outcome the stage waits for.
    pub open spec fn request(self, config: Config) -> ActionView {
        match self {
            SleepStage::Request => ActionView::CheckSleepRequest,
            SleepStage::Input { .. } => tv(config, TvCommand::QueryInput),
            SleepStage::Marker => ActionView::MarkerExists,
            SleepStage::PowerOff { .. } => tv(config, TvCommand::PowerOff),
        }
    }

    /// Whether the failures and attempts are within their limits.
    pub open spec fn counted(self) -> bool {
        match self {
            SleepStage::Input { failures } => failures <= SYSTEM_SLEEP_GET_INPUT_RETRIES,
            SleepStage::PowerOff { attempt, .. } => 1 <= attempt <= SYSTEM_SLEEP_POWER_OFF_RETRIES,
            _ => true,
        }
    }
}

/// The first actions.
pub open spec fn opening() -> (Seq<ActionView>, SleepStage) {
    (seq![ActionView::CheckSleepRequest], SleepStage::Request)
}

/// What follows from what came of the request of a stage.
pub open spec fn plan(
    config: Config,
    delays: Delays,
    stage: SleepStage,
    outcome: OutcomeView,
) -> (Seq<ActionView>, Option<SleepStage>) {
    match (stage, outcome) {
        (SleepStage::Request, OutcomeView::Flag(true)) => (
            seq![tv(config, TvCommand::QueryInput)],
            Some(SleepStage::Input { failures: 0 }),
        ),
        (SleepStage::Request, OutcomeView::Flag(false)) => (seq![finished()], None),
        (SleepStage::Request, OutcomeView::IoFailed(error)) => (
            seq![
                ActionView::Log(
                    "LG Buddy Sleep: Could not determine NetworkManager sleep state. Skipping. "@
                        + error.message,
                ),
                finished(),
            ],
            None,
        ),
        (SleepStage::Input { .. }, OutcomeView::Input(current)) => if current
            == CurrentInputView::Hdmi(config.input) {
            (seq![ActionView::MarkerExists], Some(SleepStage::Marker))
        } else {
            (seq![ActionView::MarkerClear, finished()], None)
        },
        (SleepStage::Input { failures }, _) => if failures < SYSTEM_SLEEP_GET_INPUT_RETRIES {
            (
                once_more(config, delays, TvCommand::QueryInput),
                Some(SleepStage::Input { failures: (failures + 1) as u32 }),
            )
        } else {
            (seq![ActionView::MarkerExists], Some(SleepStage::Marker))
        },
        (SleepStage::Marker, OutcomeView::Flag(state_was_set)) => (
            seq![tv(config, TvCommand::PowerOff)],
            Some(SleepStage::PowerOff { state_was_set, attempt: 1 }),
        ),
        (SleepStage::PowerOff { .. }, OutcomeView::Done) => (
            seq![ActionView::MarkerCreate, finished()],
            None,
        ),
        (SleepStage::PowerOff { state_was_set, attempt }, _) => if attempt
            < SYSTEM_SLEEP_POWER_OFF_RETRIES {
            (
                once_more(config, delays, TvCommand::PowerOff),
                Some(SleepStage::PowerOff { state_was_set, attempt: (attempt + 1) as u32 }),
            )
        } else if state_was_set {
            (seq![finished()], None)
        } else {
            (seq![ActionView::MarkerClear, finished()], None)
        },
        _ => (seq![finished()], None),
    }
}

/// A plan is effects, then the request of the next stage or the end.
pub proof fn lemma_plan(config: Config, delays: Delays, stage: SleepStage, outcome: OutcomeView)
    requires
        stage.counted(),
    ensures
        match plan(config, delays, stage, outcome).1 {
            Some(next) => next.counted() && is_plan(
                plan(config, delays, stage, outcome).0,
                next.request(config),
            ),
            None => is_plan(plan(config, delays, stage, outcome).0, finished()),
        },
{
}

/// The first actions.
pub fn open() -> (start: (Vec<Action>, SleepStage))
    ensures
        (action_views(start.0@), start.1) == opening(),
{
    let actions: Vec<Action> = vec![Action::CheckSleepRequest];
    assert(action_views(actions@) =~= opening().0);
    (actions, SleepStage::Request)
}

/// What follows from what came of the request of a stage.
pub fn decide(config: &Config, delays: &Delays, stage: SleepStage, outcome: &Outcome) -> (next: (
    Vec<Action>,
    Option<SleepStage>,
))
    requires
        stage.counted(),
        stage.request(*config).answered_by(outcome@),
    ensures
        (action_views(next.0@), next.1) == plan(*config, *delays, stage, outcome@),
{
    let next: (Vec<Action>, Option<SleepStage>) = match (stage, outcome) {
        (SleepStage::Request, Outcome::Flag(requested)) => if *requested {
            (
                vec![tell(config, TvCommand::QueryInput)],
                Some(SleepStage::Input { failures: 0 }),
            )
        } else {
            (vec![Action::Finish(Ok(()))], None)
        },
        (SleepStage::Request, Outcome::IoFailed(error)) => (
            vec![
                Action::Log(
                    text2(
                        "LG Buddy Sleep: Could not determine NetworkManager sleep state. Skipping. ",
                        error.message.as_str(),
                    ),
                ),
                Action::Finish(Ok(())),
            ],
            None,
        ),
        (SleepStage::Input { .. }, Outcome::Input(current)) => if current.is_hdmi(config.input) {
            (vec![Action::MarkerExists], Some(SleepStage::Marker))
        } else {
            (vec![Action::MarkerClear, Action::Finish(Ok(()))], None)
        },
        (SleepStage::Input { failures }, _) => match query_current_input_with_retries(
            config,
            delays,
            failures,
            SYSTEM_SLEEP_GET_INPUT_RETRIES,
        ) {
            Some(again) => (again, Some(SleepStage::Input { failures: failures + 1 })),
            None => (vec![Action::MarkerExists], Some(SleepStage::Marker)),
        },
        (SleepStage::Marker, Outcome::Flag(state_was_set)) => (
            vec![tell(config, TvCommand::PowerOff)],
            Some(SleepStage::PowerOff { state_was_set: *state_was_set, attempt: 1 }),
        ),
        (SleepStage::PowerOff { .. }, Outcome::Done) => (
            vec![Action::MarkerCreate, Action::Finish(Ok(()))],
            None,
        ),
        (SleepStage::PowerOff { state_was_set, attempt }, _) => match retry_power_off(
            config,
            delays,
            attempt,
            SYSTEM_SLEEP_POWER_OFF_RETRIES,
        ) {
            Some(again) => (
                again,
                Some(SleepStage::PowerOff { state_was_set, attempt: attempt + 1 }),
            ),
            None => if state_was_set {
                (vec![Action::Finish(Ok(()))], None)
            } else {
                (vec![Action::MarkerClear, Action::Finish(Ok(()))], None)
            },
        },
        _ => (vec![Action::Finish(Ok(()))], None),
    };
    assert(action_views(next.0@) =~= plan(*config, *delays, stage, outcome@).0);
    next
}

} // verus!
