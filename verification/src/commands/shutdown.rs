//! Switching the television off when the computer shuts down.

use crate::commands::{finished, is_plan, tell, tv};
use crate::config::Config;
use crate::effects::{action_views, Action, ActionView, CurrentInputView, Outcome, OutcomeView, TvCommand};
use crate::text::{text2, text3, text5};
use vstd::prelude::*;

verus! {

/// What the command waits for.
#[derive(Debug, Clone, Copy, PartialEq, Eq, Structural)]
pub enum ShutdownStage {
    /// Whether the computer is about to reboot.
    Reboot,
    /// What the television shows.
    Input,
    /// Whether the television switched off.
    PowerOff,
}

impl ShutdownStage {
    /// The request whose outcome the stage waits for.
    pub open spec fn request(self, config: Config) -> ActionView {
        match self {
            ShutdownStage::Reboot => ActionView::CheckReboot,
            ShutdownStage::Input => tv(config, TvCommand::QueryInput),
            ShutdownStage::PowerOff => tv(config, TvCommand::PowerOff),
        }
    }
}

/// The first actions.
pub open spec fn opening() -> (Seq<ActionView>, ShutdownStage) {
    (seq![ActionView::CheckReboot], ShutdownStage::Reboot)
}

/// What is written after switching off: a failure, and nothing else.
pub open spec fn power_off_notice(outcome: OutcomeView) -> Seq<ActionView> {
    match outcome {
        OutcomeView::TvFailed(error) => seq![
            ActionView::Log(
                "LG Buddy Shutdown: power_off failed, continuing shutdown. "@ + error.message,
            ),
        ],
        _ => seq![],
    }
}

/// What follows from what came of the request of a stage.
pub open spec fn plan(config: Config, stage: ShutdownStage, outcome: OutcomeView) -> (
    Seq<ActionView>,
    Option<ShutdownStage>,
) {
    match (stage, outcome) {
        (ShutdownStage::Reboot, OutcomeView::Flag(true)) => (
            seq![ActionView::Log("LG Buddy Shutdown: Reboot; ignoring"@), finished()],
            None,
        ),
        (ShutdownStage::Reboot, OutcomeView::Flag(false)) => (
            seq![tv(config, TvCommand::QueryInput)],
            Some(ShutdownStage::Input),
        ),
        (ShutdownStage::Reboot, OutcomeView::IoFailed(error)) => (
            seq![
                ActionView::Log(
                    "LG Buddy Shutdown: Could not determine reboot state. Continuing shutdown. "@
                        + error.message,
                ),
                tv(config, TvCommand::QueryInput),
            ],
            Some(ShutdownStage::Input),
        ),
        (ShutdownStage::Input, OutcomeView::Input(current)) => if current
            == CurrentInputView::Hdmi(config.input) {
            (
                seq![
                    ActionView::Log(
                        "LG Buddy Shutdown: TV is on "@ + config.input.text()
                            + ". Turning off for shutdown."@,
                    ),
                    tv(config, TvCommand::PowerOff),
                ],
                Some(ShutdownStage::PowerOff),
            )
        } else {
            (
                seq![
                    ActionView::Log(
                        "LG Buddy Shutdown: TV is on "@ + current.text() + " (not "@
                            + config.input.text() + "). Skipping."@,
                    ),
                    finished(),
                ],
                None,
            )
        },
        (ShutdownStage::Input, _) => (
            seq![
                ActionView::Log(
                    "LG Buddy Shutdown: Could not query TV input. Proceeding with power_off."@,
                ),
                tv(config, TvCommand::PowerOff),
            ],
            Some(ShutdownStage::PowerOff),
        ),
        (ShutdownStage::PowerOff, _) => (power_off_notice(outcome) + seq![finished()], None),
        _ => (seq![finished()], None),
    }
}

/// A plan is effects, then the request of the next stage or the end.
pub proof fn lemma_plan(config: Config, stage: ShutdownStage, outcome: OutcomeView)
    ensures
        is_plan(
            plan(config, stage, outcome).0,
            match plan(config, stage, outcome).1 {
                Some(next) => next.request(config),
                None => finished(),
            },
        ),
{
}

/// The first actions.
pub fn open() -> (start: (Vec<Action>, ShutdownStage))
    ensures
        (action_views(start.0@), start.1) == opening(),
{
    let actions: Vec<Action> = vec![Action::CheckReboot];
    assert(action_views(actions@) =~= opening().0);
    (actions, ShutdownStage::Reboot)
}

/// What is written after switching off: a failure, and nothing else.
pub fn log_shutdown_power_off_failure(outcome: &Outcome) -> (notice: Vec<Action>)
    ensures
        action_views(notice@) == power_off_notice(outcome@),
{
    let notice: Vec<Action> = match outcome {
        Outcome::TvFailed(error) => vec![
            Action::Log(
                text2(
                    "LG Buddy Shutdown: power_off failed, continuing shutdown. ",
                    error.message.as_str(),
                ),
            ),
        ],
        _ => Vec::new(),
    };
    assert(action_views(notice@) =~= power_off_notice(outcome@));
    notice
}

/// What follows from what came of the request of a stage.
pub fn decide(config: &Config, stage: ShutdownStage, outcome: &Outcome) -> (next: (
    Vec<Action>,
    Option<ShutdownStage>,
))
    requires
        stage.request(*config).answered_by(outcome@),
    ensures
        (action_views(next.0@), next.1) == plan(*config, stage, outcome@),
{
    let next: (Vec<Action>, Option<ShutdownStage>) = match (stage, outcome) {
        (ShutdownStage::Reboot, Outcome::Flag(pending)) => if *pending {
            (
                vec![
                    Action::Log("LG Buddy Shutdown: Reboot; ignoring".to_owned()),
                    Action::Finish(Ok(())),
                ],
                None,
            )
        } else {
            (vec![tell(config, TvCommand::QueryInput)], Some(ShutdownStage::Input))
        },
        (ShutdownStage::Reboot, Outcome::IoFailed(error)) => (
            vec![
                Action::Log(
                    text2(
                        "LG Buddy Shutdown: Could not determine reboot state. Continuing shutdown. ",
                        error.message.as_str(),
                    ),
                ),
                tell(config, TvCommand::QueryInput),
            ],
            Some(ShutdownStage::Input),
        ),
        (ShutdownStage::Input, Outcome::Input(current)) => if current.is_hdmi(config.input) {
            (
                vec![
                    Action::Log(
                        text3(
                            "LG Buddy Shutdown: TV is on ",
                            config.input.as_str(),
                            ". Turning off for shutdown.",
                        ),
                    ),
                    tell(config, TvCommand::PowerOff),
                ],
                Some(ShutdownStage::PowerOff),
            )
        } else {
            (
                vec![
                    Action::Log(
                        text5(
                            "LG Buddy Shutdown: TV is on ",
                            current.as_str(),
                            " (not ",
                            config.input.as_str(),
                            "). Skipping.",
                        ),
                    ),
                    Action::Finish(Ok(())),
                ],
                None,
            )
        },
        (ShutdownStage::Input, _) => (
            vec![
                Action::Log(
                    "LG Buddy Shutdown: Could not query TV input. Proceeding with power_off.".to_owned(),
                ),
                tell(config, TvCommand::PowerOff),
            ],
            Some(ShutdownStage::PowerOff),
        ),
        (ShutdownStage::PowerOff, _) => {
            let mut actions = log_shutdown_power_off_failure(outcome);
            actions.push(Action::Finish(Ok(())));
            (actions, None)
        },
        _ => (vec![Action::Finish(Ok(()))], None),
    };
    assert(action_views(next.0@) =~= plan(*config, stage, outcome@).0);
    next
}

} // verus!
