//! Letting the user set the brightness of the pixels.

use crate::commands::{finished, is_plan, tell, tv};
use crate::config::Config;
use crate::effects::{action_views, Action, ActionView, Outcome, OutcomeView, RunError, RunErrorView, TvCommand};
use crate::failure::IoError;
use crate::number::{decimal, decimal_string};
use crate::text::{text2, text3};
use vstd::prelude::*;

verus! {

/// Where the choice starts when the television does not say how bright it is.
pub const BRIGHTNESS_DEFAULT_VALUE: u8 = 50;

/// What the command waits for.
#[derive(Debug, Clone, Copy, PartialEq, Eq, Structural)]
pub enum BrightnessStage {
    /// Whether the television answers.
    Reachable,
    /// How bright the pixels are.
    Current,
    /// What the user chooses, starting at this brightness.
    Prompt(u8),
    /// Whether the pixels became this bright.
    Change(u8),
}

impl BrightnessStage {
    /// The request whose outcome the stage waits for.
    pub open spec fn request(self, config: Config) -> ActionView {
        match self {
            BrightnessStage::Reachable => ActionView::CheckReachable(config.tv_ip),
            BrightnessStage::Current => tv(config, TvCommand::QueryBrightness),
            BrightnessStage::Prompt(initial) => ActionView::PromptBrightness(initial),
            BrightnessStage::Change(value) => tv(config, TvCommand::SetBrightness(value)),
        }
    }
}

/// The first actions.
pub open spec fn opening(config: Config) -> (Seq<ActionView>, BrightnessStage) {
    (seq![ActionView::CheckReachable(config.tv_ip)], BrightnessStage::Reachable)
}

/// An error that the user sees and that the command ends with.
pub open spec fn shown_error(message: Seq<char>) -> (Seq<ActionView>, Option<BrightnessStage>) {
    (
        seq![
            ActionView::ShowError { title: "LG Buddy"@, message },
            ActionView::Finish(Err(RunErrorView::Policy(message))),
        ],
        None,
    )
}

/// The choice, starting at the given brightness.
pub open spec fn prompt(initial: u8) -> (Seq<ActionView>, Option<BrightnessStage>) {
    (seq![ActionView::PromptBrightness(initial)], Some(BrightnessStage::Prompt(initial)))
}

/// What follows from what came of the request of a stage.
pub open spec fn plan(config: Config, stage: BrightnessStage, outcome: OutcomeView) -> (
    Seq<ActionView>,
    Option<BrightnessStage>,
) {
    match (stage, outcome) {
        (BrightnessStage::Reachable, OutcomeView::Flag(true)) => (
            seq![tv(config, TvCommand::QueryBrightness)],
            Some(BrightnessStage::Current),
        ),
        (BrightnessStage::Reachable, OutcomeView::Flag(false)) => shown_error(
            "TV is not reachable at "@ + config.tv_ip.text() + "."@,
        ),
        (BrightnessStage::Reachable, OutcomeView::IoFailed(error)) => shown_error(
            "Could not check TV reachability at "@ + config.tv_ip.text() + ". "@ + error.message,
        ),
        (BrightnessStage::Current, OutcomeView::Brightness(value)) => prompt(value),
        (BrightnessStage::Current, _) => prompt(BRIGHTNESS_DEFAULT_VALUE),
        (BrightnessStage::Prompt(_), OutcomeView::Choice(Some(value))) => (
            seq![tv(config, TvCommand::SetBrightness(value))],
            Some(BrightnessStage::Change(value)),
        ),
        (BrightnessStage::Prompt(_), OutcomeView::Choice(None)) => (seq![finished()], None),
        (BrightnessStage::Prompt(_), OutcomeView::IoFailed(error)) => (
            seq![ActionView::Finish(Err(RunErrorView::Io(error)))],
            None,
        ),
        (BrightnessStage::Change(value), OutcomeView::Done) => (
            seq![
                ActionView::Notify {
                    title: "LG TV"@,
                    message: "Brightness set to "@ + decimal(value as nat) + "%"@,
                },
                ActionView::Log(
                    "LG Buddy Brightness: Set OLED pixel brightness to "@ + decimal(value as nat)
                        + "%."@,
                ),
                finished(),
            ],
            None,
        ),
        (BrightnessStage::Change(_), OutcomeView::TvFailed(error)) => (
            seq![
                ActionView::Notify { title: "LG TV"@, message: "Failed to set brightness"@ },
                ActionView::Finish(
                    Err(RunErrorView::Policy("failed to set brightness: "@ + error.message)),
                ),
            ],
            None,
        ),
        _ => (seq![finished()], None),
    }
}

/// A plan is effects, then the request of the next stage or the end.
pub proof fn lemma_plan(config: Config, stage: BrightnessStage, outcome: OutcomeView)
    ensures
        match plan(config, stage, outcome).1 {
            Some(next) => is_plan(plan(config, stage, outcome).0, next.request(config)),
            None => plan(config, stage, outcome).0.last() is Finish && is_plan(
                plan(config, stage, outcome).0,
                plan(config, stage, outcome).0.last(),
            ),
        },
{
}

/// The first actions.
pub fn open(config: &Config) -> (start: (Vec<Action>, BrightnessStage))
    ensures
        (action_views(start.0@), start.1) == opening(*config),
{
    let actions: Vec<Action> = vec![Action::CheckReachable(config.tv_ip)];
    assert(action_views(actions@) =~= opening(*config).0);
    (actions, BrightnessStage::Reachable)
}

/// An error that the user sees and that the command ends with.
fn show_and_fail(message: String) -> (next: (Vec<Action>, Option<BrightnessStage>))
    ensures
        (action_views(next.0@), next.1) == shown_error(message@),
{
    let shown = message.clone();
    let actions: Vec<Action> = vec![
        Action::ShowError { title: "LG Buddy".to_owned(), message: shown },
        Action::Finish(Err(RunError::Policy(message))),
    ];
    assert(action_views(actions@) =~= shown_error(message@).0);
    (actions, None)
}

/// A copy of a failure.
fn same_failure(error: &IoError) -> (copy: IoError)
    ensures
        copy@ == error@,
{
    IoError { kind: error.kind, message: error.message.clone() }
}

/// What follows from what came of the request of a stage.
pub fn decide(config: &Config, stage: BrightnessStage, outcome: &Outcome) -> (next: (
    Vec<Action>,
    Option<BrightnessStage>,
))
    requires
        stage.request(*config).answered_by(outcome@),
    ensures
        (action_views(next.0@), next.1) == plan(*config, stage, outcome@),
{
    let next: (Vec<Action>, Option<BrightnessStage>) = match (stage, outcome) {
        (BrightnessStage::Reachable, Outcome::Flag(reachable)) => if *reachable {
            (vec![tell(config, TvCommand::QueryBrightness)], Some(BrightnessStage::Current))
        } else {
            show_and_fail(
                text3("TV is not reachable at ", config.tv_ip.to_string().as_str(), "."),
            )
        },
        (BrightnessStage::Reachable, Outcome::IoFailed(error)) => show_and_fail(
            text3(
                "Could not check TV reachability at ",
                config.tv_ip.to_string().as_str(),
                ". ",
            ).concat(error.message.as_str()),
        ),
        (BrightnessStage::Current, Outcome::Brightness(value)) => (
            vec![Action::PromptBrightness(*value)],
            Some(BrightnessStage::Prompt(*value)),
        ),
        (BrightnessStage::Current, _) => (
            vec![Action::PromptBrightness(BRIGHTNESS_DEFAULT_VALUE)],
            Some(BrightnessStage::Prompt(BRIGHTNESS_DEFAULT_VALUE)),
        ),
        (BrightnessStage::Prompt(_), Outcome::Choice(choice)) => match choice {
            Some(value) => (
                vec![tell(config, TvCommand::SetBrightness(*value))],
                Some(BrightnessStage::Change(*value)),
            ),
            None => (vec![Action::Finish(Ok(()))], None),
        },
        (BrightnessStage::Prompt(_), Outcome::IoFailed(error)) => (
            vec![Action::Finish(Err(RunError::Io(same_failure(error))))],
            None,
        ),
        (BrightnessStage::Change(value), Outcome::Done) => (
            vec![
                Action::Notify {
                    title: "LG TV".to_owned(),
                    message: text3(
                        "Brightness set to ",
                        decimal_string(value as u64).as_str(),
                        "%",
                    ),
                },
                Action::Log(
                    text3(
                        "LG Buddy Brightness: Set OLED pixel brightness to ",
                        decimal_string(value as u64).as_str(),
                        "%.",
                    ),
                ),
                Action::Finish(Ok(())),
            ],
            None,
        ),
        (BrightnessStage::Change(_), Outcome::TvFailed(error)) => (
            vec![
                Action::Notify {
                    title: "LG TV".to_owned(),
                    message: "Failed to set brightness".to_owned(),
                },
                Action::Finish(
                    Err(
                        RunError::Policy(
                            text2("failed to set brightness: ", error.message.as_str()),
                        ),
                    ),
                ),
            ],
            None,
        ),
        _ => (vec![Action::Finish(Ok(()))], None),
    };
    assert(action_views(next.0@) =~= plan(*config, stage, outcome@).0);
    next
}

} // verus!
