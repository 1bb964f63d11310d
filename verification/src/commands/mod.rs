//! The commands: what each asks of the outside world next, given what came of what it asked
//! before.
//!
//! A command is a sequence of stages. At each stage it waits for the outcome of one request;
//! the outcome settles a plan: effects to have, then the request of the next stage or the end.

pub mod brightness;
pub mod screen_off;
pub mod screen_on;
pub mod shutdown;
pub mod sleep;
pub mod sleep_pre;
pub mod startup;

use crate::config::{Config, ScreenRestorePolicy};
use crate::delay::{system_sleep_retry_delay, Delays};
use crate::effects::{action_views, Action, ActionView, Outcome, OutcomeView, TvCommand};
use crate::text::{text2, text3};
use vstd::prelude::*;

verus! {

/// A command to the configured television.
pub open spec fn tv(config: Config, command: TvCommand) -> ActionView {
    ActionView::Tv(config.tv_ip, command)
}

/// A command to the configured television.
pub fn tell(config: &Config, command: TvCommand) -> (action: Action)
    ensures
        action@ == tv(*config, command),
{
    Action::Tv(config.tv_ip, command)
}

/// The end of a command that did what it could.
pub open spec fn finished() -> ActionView {
    ActionView::Finish(Ok(()))
}

/// Whether a plan is effects, then one last action.
pub open spec fn is_plan(actions: Seq<ActionView>, last: ActionView) -> bool {
    &&& actions.len() > 0
    &&& actions.last() == last
    &&& forall|i: int| 0 <= i < actions.len() - 1 ==> (#[trigger] actions[i]).is_effect()
}

/// Whether the screen may be put back on.
pub open spec fn may_restore(policy: ScreenRestorePolicy, marker_exists: bool) -> bool {
    marker_exists || policy == ScreenRestorePolicy::Aggressive
}

/// Whether the screen may be put back on.
pub fn restore_is_allowed(policy: ScreenRestorePolicy, marker_exists: bool) -> (allowed: bool)
    ensures
        allowed == may_restore(policy, marker_exists),
{
    marker_exists || policy == ScreenRestorePolicy::Aggressive
}

/// What is written before a restore without a marker.
pub open spec fn markerless_notice(prefix: Seq<char>) -> ActionView {
    ActionView::Log(
        prefix
            + ": State file not found. Aggressive restore policy is enabled, so LG Buddy will attempt wake anyway."@,
    )
}

/// What is written before a restore without a marker.
pub fn log_markerless_restore_notice(prefix: &str) -> (notice: Action)
    ensures
        notice@ == markerless_notice(prefix@),
{
    Action::Log(
        text2(
            prefix,
            ": State file not found. Aggressive restore policy is enabled, so LG Buddy will attempt wake anyway.",
        ),
    )
}

/// What is written after a wake packet: a failure, and nothing else.
pub open spec fn wake_notice(prefix: Seq<char>, outcome: OutcomeView) -> Seq<ActionView> {
    match outcome {
        OutcomeView::TvFailed(error) => seq![
            ActionView::Log(
                prefix + ": Wake-on-LAN send failed. Continuing anyway. "@ + error.message,
            ),
        ],
        _ => seq![],
    }
}

/// What is written after a wake packet: a failure, and nothing else.
pub fn log_wake_failure(prefix: &str, outcome: &Outcome) -> (notice: Vec<Action>)
    ensures
        action_views(notice@) == wake_notice(prefix@, outcome@),
{
    let notice: Vec<Action> = match outcome {
        Outcome::TvFailed(error) => vec![
            Action::Log(
                text3(
                    prefix,
                    ": Wake-on-LAN send failed. Continuing anyway. ",
                    error.message.as_str(),
                ),
            ),
        ],
        _ => Vec::new(),
    };
    assert(action_views(notice@) =~= wake_notice(prefix@, outcome@));
    notice
}

/// How often the question what is shown is repeated before a sleep.
pub const SYSTEM_SLEEP_GET_INPUT_RETRIES: u32 = 3;

/// How often switching off is tried before a sleep.
pub const SYSTEM_SLEEP_POWER_OFF_RETRIES: u32 = 4;

/// A pause before a sleep, then a command to the television once more.
pub open spec fn once_more(config: Config, delays: Delays, command: TvCommand) -> Seq<ActionView> {
    seq![ActionView::Sleep(delays.before_sleep()), tv(config, command)]
}

/// A pause before a sleep, then a command to the television once more.
fn try_again(config: &Config, delays: &Delays, command: TvCommand) -> (actions: Vec<Action>)
    ensures
        action_views(actions@) == once_more(*config, *delays, command),
{
    let actions: Vec<Action> = vec![
        Action::Sleep(system_sleep_retry_delay(delays)),
        tell(config, command),
    ];
    assert(action_views(actions@) =~= once_more(*config, *delays, command));
    actions
}

/// What follows when the television did not say what it shows, after `failures` earlier
/// failures: the question once more, up to `retries` times.
pub fn query_current_input_with_retries(
    config: &Config,
    delays: &Delays,
    failures: u32,
    retries: u32,
) -> (actions: Option<Vec<Action>>)
    ensures
        match actions {
            Some(again) => failures < retries && action_views(again@) == once_more(
                *config,
                *delays,
                TvCommand::QueryInput,
            ),
            None => failures >= retries,
        },
{
    if failures < retries {
        Some(try_again(config, delays, TvCommand::QueryInput))
    } else {
        None
    }
}

/// What follows when the television did not switch off at the given attempt: another one, up
/// to `attempts` in all.
pub fn retry_power_off(config: &Config, delays: &Delays, attempt: u32, attempts: u32) -> (actions:
    Option<Vec<Action>>)
    ensures
        match actions {
            Some(again) => attempt < attempts && action_views(again@) == once_more(
                *config,
                *delays,
                TvCommand::PowerOff,
            ),
            None => attempt >= attempts,
        },
{
    if attempt < attempts {
        Some(try_again(config, delays, TvCommand::PowerOff))
    } else {
        None
    }
}

} // verus!
