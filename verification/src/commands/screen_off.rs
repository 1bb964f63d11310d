//! Putting the screen off when the session is idle.

use crate::commands::{finished, is_plan, tell, tv};
use crate::config::Config;
use crate::effects::{action_views, Action, ActionView, CurrentInput, CurrentInputView, Outcome, OutcomeView, TvCommand};
use crate::text::{text2, text3, text5};
use vstd::prelude::*;

verus! {

/// What the command waits for.
#[derive(Debug, Clone, Copy, PartialEq, Eq, Structural)]
pub enum ScreenOffStage {
    /// What the television shows.
    Input,
    /// Whether the panel went off.
    Blank,
    /// Whether the television switched off instead.
    Fallback {
        /// Whether it is known to show the configured port.
        input_known: bool,
    },
}

impl ScreenOffStage {
    /// The request whose outcome the stage waits for.
    pub open spec fn request(self, config: Config) -> ActionView {
        match self {
            ScreenOffStage::Input => tv(config, TvCommand::QueryInput),
            ScreenOffStage::Blank => tv(config, TvCommand::BlankScreen),
            ScreenOffStage::Fallback { .. } => tv(config, TvCommand::PowerOff),
        }
    }
}

/// The first actions.
pub open spec fn opening(config: Config) -> (Seq<ActionView>, ScreenOffStage) {
    (seq![tv(config, TvCommand::QueryInput)], ScreenOffStage::Input)
}

/// What follows when the television says what it shows. The panel goes off where that is the
/// configured port; otherwise the screen is not this computer's, and the marker goes.
pub open spec fn known_input(config: Config, current: CurrentInputView) -> (
    Seq<ActionView>,
    Option<ScreenOffStage>,
) {
    if current == CurrentInputView::Hdmi(config.input) {
        (
            seq![
                ActionView::Log(
                    "LG Buddy Screen Off: TV is on "@ + config.input.text()
                        + ". Attempting screen blank for idle..."@,
                ),
                tv(config, TvCommand::BlankScreen),
            ],
            Some(ScreenOffStage::Blank),
        )
    } else {
        (
            seq![
                ActionView::MarkerClear,
                ActionView::Log(
                    "LG Buddy Screen Off: TV is on "@ + current.text() + " (not "@
                        + config.input.text() + "). Skipping idle action."@,
                ),
                finished(),
            ],
            None,
        )
    }
}

/// What follows from what came of the request of a stage.
pub open spec fn plan(config: Config, stage: ScreenOffStage, outcome: OutcomeView) -> (
    Seq<ActionView>,
    Option<ScreenOffStage>,
) {
    match (stage, outcome) {
        (ScreenOffStage::Input, OutcomeView::Input(current)) => known_input(config, current),
        (ScreenOffStage::Input, OutcomeView::TvFailed(error)) => (
            seq![
                ActionView::Log(
                    "LG Buddy Screen Off: Could not query TV input. Falling back to power_off. "@
                        + error.message,
                ),
                tv(config, TvCommand::PowerOff),
            ],
            Some(ScreenOffStage::Fallback { input_known: false }),
        ),
        (ScreenOffStage::Blank, OutcomeView::Done) => (
            seq![
                ActionView::MarkerCreate,
                ActionView::Log("LG Buddy Screen Off: Screen blank command succeeded."@),
                finished(),
            ],
            None,
        ),
        (ScreenOffStage::Blank, OutcomeView::TvFailed(error)) => (
            seq![
                ActionView::Log(
                    "LG Buddy Screen Off: Screen blank failed. Falling back to power_off. "@
                        + error.message,
                ),
                tv(config, TvCommand::PowerOff),
            ],
            Some(ScreenOffStage::Fallback { input_known: true }),
        ),
        (ScreenOffStage::Fallback { .. }, OutcomeView::Done) => (
            seq![
                ActionView::MarkerCreate,
                ActionView::Log("LG Buddy Screen Off: Fallback power_off succeeded."@),
                finished(),
            ],
            None,
        ),
        (ScreenOffStage::Fallback { input_known }, OutcomeView::TvFailed(error)) => (
            seq![
                ActionView::Log(
                    if input_known {
                        "LG Buddy Screen Off: Fallback power_off failed. "@ + error.message
                    } else {
                        "LG Buddy Screen Off: Could not power off the TV (may already be off or unreachable). "@
                            + error.message
                    },
                ),
                finished(),
            ],
            None,
        ),
        _ => (seq![finished()], None),
    }
}

/// A plan is effects, then the request of the next stage or the end.
pub proof fn lemma_plan(config: Config, stage: ScreenOffStage, outcome: OutcomeView)
    ensures
        is_plan(
            plan(config, stage, outcome).0,
            match plan(config, stage, outcome).1 {
                Some(next) => next.request(config),
                None => finished(),
            },
        ),
{
}

/// The first actions.
pub fn open(config: &Config) -> (start: (Vec<Action>, ScreenOffStage))
    ensures
        (action_views(start.0@), start.1) == opening(*config),
{
    let actions: Vec<Action> = vec![tell(config, TvCommand::QueryInput)];
    assert(action_views(actions@) =~= opening(*config).0);
    (actions, ScreenOffStage::Input)
}

/// What follows when the television says what it shows.
pub fn handle_known_input(config: &Config, current: &CurrentInput) -> (next: (
    Vec<Action>,
    Option<ScreenOffStage>,
))
    ensures
        (action_views(next.0@), next.1) == known_input(*config, current@),
{
    let next: (Vec<Action>, Option<ScreenOffStage>) = if current.is_hdmi(config.input) {
        (
            vec![
                Action::Log(
                    text3(
                        "LG Buddy Screen Off: TV is on ",
                        config.input.as_str(),
                        ". Attempting screen blank for idle...",
                    ),
                ),
                tell(config, TvCommand::BlankScreen),
            ],
            Some(ScreenOffStage::Blank),
        )
    } else {
        (
            vec![
                Action::MarkerClear,
                Action::Log(
                    text5(
                        "LG Buddy Screen Off: TV is on ",
                        current.as_str(),
                        " (not ",
                        config.input.as_str(),
                        "). Skipping idle action.",
                    ),
                ),
                Action::Finish(Ok(())),
            ],
            None,
        )
    };
    assert(action_views(next.0@) =~= known_input(*config, current@).0);
    next
}

/// What follows from what came of the request of a stage.
pub fn decide(config: &Config, stage: ScreenOffStage, outcome: &Outcome) -> (next: (
    Vec<Action>,
    Option<ScreenOffStage>,
))
    requires
        stage.request(*config).answered_by(outcome@),
    ensures
        (action_views(next.0@), next.1) == plan(*config, stage, outcome@),
{
    let next: (Vec<Action>, Option<ScreenOffStage>) = match (stage, outcome) {
        (ScreenOffStage::Input, Outcome::Input(current)) => handle_known_input(config, current),
        (ScreenOffStage::Input, Outcome::TvFailed(error)) => (
            vec![
                Action::Log(
                    text2(
                        "LG Buddy Screen Off: Could not query TV input. Falling back to power_off. ",
                        error.message.as_str(),
                    ),
                ),
                tell(config, TvCommand::PowerOff),
            ],
            Some(ScreenOffStage::Fallback { input_known: false }),
        ),
        (ScreenOffStage::Blank, Outcome::Done) => (
            vec![
                Action::MarkerCreate,
                Action::Log("LG Buddy Screen Off: Screen blank command succeeded.".to_owned()),
                Action::Finish(Ok(())),
            ],
            None,
        ),
        (ScreenOffStage::Blank, Outcome::TvFailed(error)) => (
            vec![
                Action::Log(
                    text2(
                        "LG Buddy Screen Off: Screen blank failed. Falling back to power_off. ",
                        error.message.as_str(),
                    ),
                ),
                tell(config, TvCommand::PowerOff),
            ],
            Some(ScreenOffStage::Fallback { input_known: true }),
        ),
        (ScreenOffStage::Fallback { .. }, Outcome::Done) => (
            vec![
                Action::MarkerCreate,
                Action::Log("LG Buddy Screen Off: Fallback power_off succeeded.".to_owned()),
                Action::Finish(Ok(())),
            ],
            None,
        ),
        (ScreenOffStage::Fallback { input_known }, Outcome::TvFailed(error)) => (
            vec![
                Action::Log(
                    text2(
                        if input_known {
                            "LG Buddy Screen Off: Fallback power_off failed. "
                        } else {
                            "LG Buddy Screen Off: Could not power off the TV (may already be off or unreachable). "
                        },
                        error.message.as_str(),
                    ),
                ),
                Action::Finish(Ok(())),
            ],
            None,
        ),
        _ => (vec![Action::Finish(Ok(()))], None),
    };
    assert(action_views(next.0@) =~= plan(*config, stage, outcome@).0);
    next
}

} // verus!
